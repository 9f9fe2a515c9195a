//! Keys of the Git tab and its commit box.

use crate::app::TuiApp;
use crate::command::{
    none, nothing, one, run, run_only, two, AppCommand, Effect, Resume, StatusKey,
};
use crate::engine::{Panel, SettingItem};
use crate::event::{KeyCode, KeyEvent};
use crate::input::moves::{list_move, list_move_spec, move_rows, pan_columns, pan_step, rows_of};
use crate::input_edit::TextEditOutcome;
use crate::input_edit_multi;
use crate::input_edit_multi::multi_line_op;
use crate::keymap::{
    lemma_resolved_is_bound, resolved, scope_table, Command, InputScope, Keymap,
};
use crate::settings::{cycle_effects, no_diff_selection};
use vstd::prelude::*;

verus! {

/// What a key does on the Git tab, outside the commit box.
pub open spec fn git_nav_effects(key: KeyEvent, app: TuiApp) -> Seq<Effect> {
    let ctrl = key.modifiers.control;
    let on_diff = app.engine.active_panel == Panel::Diff;
    match list_move_spec(key) {
        Some(by) => if app.engine.active_panel == Panel::Files {
            run_only(AppCommand::NavigateGitFiles(rows_of(by, 10)))
        } else {
            run_only(AppCommand::DiffScroll(rows_of(by, 20)))
        },
        None => match key.code {
            KeyCode::Left => if on_diff {
                run_only(AppCommand::DiffHorizontalScroll((-pan_step(key)) as i32))
            } else {
                nothing()
            },
            KeyCode::Right => if on_diff {
                run_only(AppCommand::DiffHorizontalScroll(pan_step(key) as i32))
            } else {
                nothing()
            },
            KeyCode::Home => if on_diff {
                run_only(AppCommand::SetDiffHorizontalScroll(0))
            } else {
                nothing()
            },
            KeyCode::End => if on_diff {
                run_only(AppCommand::SetDiffHorizontalScroll(usize::MAX))
            } else {
                nothing()
            },
            KeyCode::Char('s') => seq![Effect::GitStatusKey(StatusKey::Stage)],
            KeyCode::Char('u') => seq![Effect::GitStatusKey(StatusKey::Unstage)],
            KeyCode::Char('d') => seq![Effect::GitStatusKey(StatusKey::Discard)],
            KeyCode::Char('y') => seq![Effect::GitStatusKey(StatusKey::Yes)],
            KeyCode::Char('n') => seq![Effect::GitStatusKey(StatusKey::No)],
            KeyCode::Esc => seq![Effect::GitStatusKey(StatusKey::Escape)],
            KeyCode::Char('r') => seq![Effect::GitStatusKey(StatusKey::Refresh)],
            KeyCode::Char('t') => seq![Effect::GitStatusKey(StatusKey::TreeMode)],
            KeyCode::Char('m') => if !ctrl {
                cycle_effects(app, SettingItem::DiffLayout).1
            } else {
                nothing()
            },
            KeyCode::Char('f') => if !ctrl {
                cycle_effects(app, SettingItem::DiffMode).1
            } else {
                nothing()
            },
            KeyCode::Char('e') => run_only(AppCommand::RequestEditSelectedGitFile),
            KeyCode::Enter => run_only(AppCommand::RequestEditSelectedGitFile),
            _ => nothing(),
        },
    }
}

/// The state after a key on the Git tab, outside the commit box. Flipping the diff's
/// layout or mode drops the selection in it.
pub open spec fn after_git_nav(key: KeyEvent, app: TuiApp) -> TuiApp {
    if !key.modifiers.control && (key.code == KeyCode::Char('m') || key.code == KeyCode::Char('f'))
    {
        no_diff_selection(app)
    } else {
        app
    }
}

fn git_nav(key: KeyEvent, app: &mut TuiApp) -> (r: Vec<Effect>)
    ensures
        *final(app) == after_git_nav(key, *old(app)),
        r@ == git_nav_effects(key, *old(app)),
{
    let ctrl = key.modifiers.control;
    if !ctrl && key.code == KeyCode::Char('m') {
        return app.toggle_diff_layout();
    }
    if !ctrl && key.code == KeyCode::Char('f') {
        return app.toggle_diff_mode();
    }
    git_panel_key(key, app)
}

fn git_panel_key(key: KeyEvent, app: &TuiApp) -> (r: Vec<Effect>)
    requires
        key.modifiers.control || (key.code != KeyCode::Char('m') && key.code != KeyCode::Char('f')),
    ensures
        r@ == git_nav_effects(key, *app),
{
    let on_diff = app.engine.active_panel == Panel::Diff;
    if let Some(by) = list_move(&key) {
        return if app.engine.active_panel == Panel::Files {
            app.navigate_files(move_rows(by, 10))
        } else {
            run(AppCommand::DiffScroll(move_rows(by, 20)))
        };
    }
    match key.code {
        KeyCode::Left if on_diff => run(AppCommand::DiffHorizontalScroll(-pan_columns(&key))),
        KeyCode::Right if on_diff => run(AppCommand::DiffHorizontalScroll(pan_columns(&key))),
        KeyCode::Home if on_diff => run(AppCommand::SetDiffHorizontalScroll(0)),
        KeyCode::End if on_diff => run(AppCommand::SetDiffHorizontalScroll(usize::MAX)),
        KeyCode::Char('s') => one(Effect::GitStatusKey(StatusKey::Stage)),
        KeyCode::Char('u') => one(Effect::GitStatusKey(StatusKey::Unstage)),
        KeyCode::Char('d') => one(Effect::GitStatusKey(StatusKey::Discard)),
        KeyCode::Char('y') => one(Effect::GitStatusKey(StatusKey::Yes)),
        KeyCode::Char('n') => one(Effect::GitStatusKey(StatusKey::No)),
        KeyCode::Esc => one(Effect::GitStatusKey(StatusKey::Escape)),
        KeyCode::Char('r') => one(Effect::GitStatusKey(StatusKey::Refresh)),
        KeyCode::Char('t') => one(Effect::GitStatusKey(StatusKey::TreeMode)),
        KeyCode::Char('e') => run(AppCommand::RequestEditSelectedGitFile),
        KeyCode::Enter => run(AppCommand::RequestEditSelectedGitFile),
        _ => none(),
    }
}

/// Whether the commit box takes the keys of the Git tab.
pub open spec fn commit_box_focused(app: TuiApp) -> bool {
    app.engine.active_panel == Panel::Files && app.engine.commit_editing
}

/// What the commit box makes of a key before any edit, or nothing where the key is left
/// to the panel.
pub open spec fn commit_box_effects(key: KeyEvent) -> Option<Seq<Effect>> {
    match resolved(InputScope::CommitEditor, key) {
        Some(Command::Close) => Some(run_only(AppCommand::SetCommitEditing(false))),
        Some(Command::Confirm) => Some(run_only(AppCommand::RunCommit)),
        Some(Command::Quit) => Some(run_only(AppCommand::Quit)),
        _ => match multi_line_op(key) {
            Some(op) => Some(
                seq![
                    Effect::Run(AppCommand::EditCommitMessage(op)),
                    Effect::Then(Resume::CommitKey(key)),
                ],
            ),
            None => if leaves_commit_box(key, TextEditOutcome::Unhandled) {
                None
            } else {
                Some(nothing())
            },
        },
    }
}

/// Whether a key goes on to the panel after the commit box made `outcome` of it: the
/// editor did not know it, and it is neither a letter held with Control or Alt nor Enter
/// held with both.
pub open spec fn leaves_commit_box(key: KeyEvent, outcome: TextEditOutcome) -> bool {
    &&& outcome == TextEditOutcome::Unhandled
    &&& !(key.code is Char && (key.modifiers.control || key.modifiers.alt))
    &&& !(key.code == KeyCode::Enter && key.modifiers.control && key.modifiers.alt)
}

/// The commit box's own keys, and edits of its text. The result is nothing where the key
/// is left to the panel.
pub fn handle_key_git_commit(key: KeyEvent, app: &TuiApp) -> (r: Option<Vec<Effect>>)
    ensures
        match r {
            Some(effects) => commit_box_focused(*app) && commit_box_effects(key) == Some(effects@),
            None => !commit_box_focused(*app) || commit_box_effects(key) is None,
        },
{
    if app.engine.active_panel != Panel::Files || !app.engine.commit_editing {
        return None;
    }
    match Keymap::resolve(InputScope::CommitEditor, &key) {
        Some(Command::Close) => Some(run(AppCommand::SetCommitEditing(false))),
        Some(Command::Confirm) => Some(app.run_commit()),
        Some(Command::Quit) => Some(app.quit()),
        _ => match input_edit_multi::op_for_key(&key) {
            Some(op) => Some(
                two(
                    Effect::Run(AppCommand::EditCommitMessage(op)),
                    Effect::Then(Resume::CommitKey(key)),
                ),
            ),
            None => {
                if key_leaves_commit_box(&key, TextEditOutcome::Unhandled) {
                    None
                } else {
                    Some(none())
                }
            },
        },
    }
}

fn key_leaves_commit_box(key: &KeyEvent, outcome: TextEditOutcome) -> (r: bool)
    ensures
        r == leaves_commit_box(*key, outcome),
{
    let stays = match key.code {
        KeyCode::Char(_) => key.modifiers.control || key.modifiers.alt,
        KeyCode::Enter => key.modifiers.control && key.modifiers.alt,
        _ => false,
    };
    outcome == TextEditOutcome::Unhandled && !stays
}

/// What a key does on the Git tab.
pub open spec fn git_key_spec(key: KeyEvent, app: TuiApp) -> (TuiApp, Seq<Effect>) {
    if commit_box_focused(app) && commit_box_effects(key) is Some {
        (app, commit_box_effects(key)->0)
    } else {
        (after_git_nav(key, app), git_nav_effects(key, app))
    }
}

/// Gives a key to the Git tab.
pub fn handle_key_git(key: KeyEvent, app: &mut TuiApp) -> (r: Vec<Effect>)
    ensures
        *final(app) == git_key_spec(key, *old(app)).0,
        r@ == git_key_spec(key, *old(app)).1,
{
    if let Some(effects) = handle_key_git_commit(key, app) {
        return effects;
    }
    git_nav(key, app)
}

/// What goes on once the commit box's editor has made `outcome` of a key.
pub open spec fn after_commit_edit_spec(key: KeyEvent, app: TuiApp, outcome: TextEditOutcome) -> (
    TuiApp,
    Seq<Effect>,
) {
    if leaves_commit_box(key, outcome) {
        (after_git_nav(key, app), git_nav_effects(key, app))
    } else {
        (app, nothing())
    }
}

/// Goes on with a key once the commit box's editor has made `outcome` of it.
pub fn after_commit_edit(key: KeyEvent, app: &mut TuiApp, outcome: TextEditOutcome) -> (r: Vec<
    Effect,
>)
    ensures
        *final(app) == after_commit_edit_spec(key, *old(app), outcome).0,
        r@ == after_commit_edit_spec(key, *old(app), outcome).1,
{
    if key_leaves_commit_box(&key, outcome) {
        return git_nav(key, app);
    }
    none()
}

/// While a commit message is typed, a letter never reaches the panel's own keys: held
/// with Control or Alt it is swallowed if the editor does not know it, and otherwise it
/// only gets past an editor that refused it.
pub proof fn letters_stay_in_the_commit_box(key: KeyEvent, app: TuiApp, outcome: TextEditOutcome)
    requires
        key.code is Char,
        commit_box_focused(app),
    ensures
        commit_box_effects(key) is Some,
        git_key_spec(key, app) == (app, commit_box_effects(key)->0),
        (key.modifiers.control || key.modifiers.alt || outcome != TextEditOutcome::Unhandled)
            ==> after_commit_edit_spec(key, app, outcome) == (app, nothing()),
{
}

/// While a commit message is typed, Enter held with Control and Alt does nothing: it
/// neither commits nor opens an editor.
pub proof fn control_alt_enter_does_nothing(key: KeyEvent, app: TuiApp)
    requires
        key.code == KeyCode::Enter,
        key.modifiers.control,
        key.modifiers.alt,
        commit_box_focused(app),
    ensures
        git_key_spec(key, app) == (app, nothing()),
{
    if resolved(InputScope::CommitEditor, key) is Some {
        let i = lemma_resolved_is_bound(InputScope::CommitEditor, key);
        assert(scope_table(InputScope::CommitEditor)[i].modifiers == key.modifiers);
    }
}

/// A key commits the message that is typed only if it is Enter with Control and without
/// Alt.
pub proof fn commits_take_control_enter(key: KeyEvent)
    requires
        resolved(InputScope::CommitEditor, key) == Some(Command::Confirm),
    ensures
        key.code == KeyCode::Enter && key.modifiers.control && !key.modifiers.alt,
{
    let i = lemma_resolved_is_bound(InputScope::CommitEditor, key);
    assert(scope_table(InputScope::CommitEditor)[i].key == key.code);
}

} // verus!
