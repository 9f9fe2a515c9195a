//! Keys of the focused preview, where one panel has the whole screen.

use crate::app::TuiApp;
use crate::command::{none, nothing, run, run_and_drain, run_only, AppCommand, Effect};
use crate::event::{KeyCode, KeyEvent};
use crate::input::leader::{
    is_fresh, still_waits, G_CHORD_TIMEOUT_MILLIS, LEADER_TIMEOUT_MILLIS,
};
use crate::input::moves::is_plain;
use crate::keymap::{lemma_unbound, resolved, Command, InputScope, Keymap};
use crate::layout::monus;
use crate::time::Timestamp;
use vstd::prelude::*;

verus! {

/// What a key does while the list of changed files is up. The list owns the keyboard.
pub open spec fn files_list_effects(key: KeyEvent, app: TuiApp) -> Seq<Effect> {
    let ctrl = key.modifiers.control;
    let close = run_only(AppCommand::CloseFocusedPreviewFiles);
    let up = run_only(AppCommand::MoveFocusedPreviewFilesSelection((-1) as i32));
    let down = run_only(AppCommand::MoveFocusedPreviewFilesSelection(1));
    let first = run_only(AppCommand::SetFocusedPreviewFilesSelection(0));
    let last = run_only(
        AppCommand::SetFocusedPreviewFilesSelection(
            monus(app.engine.focused_preview_file_count as int, 1) as usize,
        ),
    );
    let confirm = run_and_drain(
        AppCommand::ConfirmFocusedPreviewFilesSelection {
            dark: app.theme.is_dark,
            uses_three_col: app.graph_uses_three_col(),
        },
    );
    match key.code {
        KeyCode::Esc => close,
        KeyCode::Up => if !ctrl {
            up
        } else {
            nothing()
        },
        KeyCode::Down => if !ctrl {
            down
        } else {
            nothing()
        },
        KeyCode::PageUp => first,
        KeyCode::Home => first,
        KeyCode::PageDown => last,
        KeyCode::End => last,
        KeyCode::Enter => confirm,
        KeyCode::Char(c) => if c == 'c' && ctrl {
            run_only(AppCommand::Quit)
        } else if c == ' ' {
            confirm
        } else if ctrl {
            nothing()
        } else if c == 'k' {
            up
        } else if c == 'j' {
            down
        } else if c == 'o' || c == 'O' {
            close
        } else {
            nothing()
        },
        _ => nothing(),
    }
}

fn files_list_key(key: KeyEvent, app: &TuiApp) -> (r: Vec<Effect>)
    ensures
        r@ == files_list_effects(key, *app),
{
    let ctrl = key.modifiers.control;
    match key.code {
        KeyCode::Esc => app.close_focused_preview_files(),
        KeyCode::Char('c') if ctrl => app.quit(),
        KeyCode::Up if !ctrl => app.move_focused_preview_files_selection(-1),
        KeyCode::Char('k') if !ctrl => app.move_focused_preview_files_selection(-1),
        KeyCode::Down if !ctrl => app.move_focused_preview_files_selection(1),
        KeyCode::Char('j') if !ctrl => app.move_focused_preview_files_selection(1),
        KeyCode::PageUp | KeyCode::Home => run(AppCommand::SetFocusedPreviewFilesSelection(0)),
        KeyCode::PageDown | KeyCode::End => run(
            AppCommand::SetFocusedPreviewFilesSelection(
                app.engine.focused_preview_file_count.saturating_sub(1),
            ),
        ),
        KeyCode::Enter | KeyCode::Char(' ') => app.confirm_focused_preview_files_selection(),
        KeyCode::Char('o') if !ctrl => app.close_focused_preview_files(),
        KeyCode::Char('O') if !ctrl => app.close_focused_preview_files(),
        _ => none(),
    }
}

/// The keys that keep their usual meaning here: those that scroll, search, change how
/// the diff is shown, move through a database, or begin a chord.
pub open spec fn is_viewing_key(key: KeyEvent) -> bool {
    let ctrl = key.modifiers.control;
    let alt = key.modifiers.alt;
    match key.code {
        KeyCode::Up => !ctrl && !alt,
        KeyCode::Down => !ctrl && !alt,
        KeyCode::Left => !ctrl && !alt,
        KeyCode::Right => !ctrl && !alt,
        KeyCode::PageUp => !ctrl && !alt,
        KeyCode::PageDown => !ctrl && !alt,
        KeyCode::Home => !ctrl && !alt,
        KeyCode::End => !ctrl && !alt,
        KeyCode::Char(c) => {
            ||| !ctrl && !alt && (c == ' ' || c == 'j' || c == 'k' || c == 'h' || c == '?'
                || c == '/' || c == 'n' || c == 'N' || c == 'm' || c == 'f' || c == '[' || c == ']'
                || c == 'g' || c == 'G')
            ||| ctrl && (c == 'p' || c == 'n' || c == 'j' || c == 'k' || c == 'b')
        },
        _ => false,
    }
}

fn viewing_key(key: &KeyEvent) -> (r: bool)
    ensures
        r == is_viewing_key(*key),
{
    let ctrl = key.modifiers.control;
    let bare = !ctrl && !key.modifiers.alt;
    match key.code {
        KeyCode::Up | KeyCode::Down | KeyCode::Left | KeyCode::Right => bare,
        KeyCode::PageUp | KeyCode::PageDown | KeyCode::Home | KeyCode::End => bare,
        KeyCode::Char(' ' | 'h' | '?' | '/' | 'N' | 'm' | 'f' | '[' | ']' | 'g' | 'G') => bare,
        KeyCode::Char('j' | 'k' | 'n') => bare || ctrl,
        KeyCode::Char('p' | 'b') => ctrl,
        _ => false,
    }
}

/// Whether a Space leader still waits for its second key.
pub open spec fn leader_waits(app: TuiApp, now: Timestamp) -> bool {
    match app.space_leader_at {
        Some(t) => is_fresh(t, now, LEADER_TIMEOUT_MILLIS as int),
        None => false,
    }
}

/// Whether a `g` still waits for its second key.
pub open spec fn g_waits(app: TuiApp, now: Timestamp) -> bool {
    match app.g_pending_at {
        Some(t) => is_fresh(t, now, G_CHORD_TIMEOUT_MILLIS as int),
        None => false,
    }
}

/// Whether the key may complete a chord that waits.
pub open spec fn may_complete_chord(key: KeyEvent, app: TuiApp, now: Timestamp) -> bool {
    leader_waits(app, now) || (g_waits(app, now) && is_plain(key) && (key.code == KeyCode::Char('d')
        || key.code == KeyCode::Char('r')))
}

/// Whether the key opens the list of changed files.
pub open spec fn opens_files_list(key: KeyEvent, app: TuiApp) -> bool {
    (key.code == KeyCode::Char('o') || key.code == KeyCode::Char('O')) && !key.modifiers.control
        && app.space_leader_at is None && app.focused_preview_chip_visible()
}

/// What a key does in the focused preview, or nothing where it is left to the tab.
pub open spec fn focused_preview_spec(key: KeyEvent, app: TuiApp, now: Timestamp) -> Option<
    (TuiApp, Seq<Effect>),
> {
    let command = resolved(InputScope::FocusedPreview, key);
    if app.engine.focused_preview_files_open {
        Some((app, files_list_effects(key, app)))
    } else if may_complete_chord(key, app, now) {
        None
    } else if command == Some(Command::Close) {
        Some(
            (
                TuiApp { space_leader_at: None, g_pending_at: None, ..app },
                run_only(AppCommand::CloseFocusedPreview),
            ),
        )
    } else if command == Some(Command::Quit) {
        Some((app, run_only(AppCommand::Quit)))
    } else if opens_files_list(key, app) {
        Some((app, run_only(AppCommand::ToggleFocusedPreviewFiles)))
    } else if is_viewing_key(key) {
        None
    } else {
        Some((app, nothing()))
    }
}

fn chord_may_complete(key: &KeyEvent, app: &TuiApp, now: Timestamp) -> (r: bool)
    ensures
        r == may_complete_chord(*key, *app, now),
{
    if let Some(t) = app.space_leader_at {
        if still_waits(t, now, LEADER_TIMEOUT_MILLIS) {
            return true;
        }
    }
    let g_armed = match app.g_pending_at {
        Some(t) => still_waits(t, now, G_CHORD_TIMEOUT_MILLIS),
        None => false,
    };
    g_armed && !key.modifiers.control && !key.modifiers.alt && !key.modifiers.shift && (key.code
        == KeyCode::Char('d') || key.code == KeyCode::Char('r'))
}

/// Gives a key to the focused preview. The result is nothing where the key is left to
/// the tab: it scrolls or searches, or may complete a chord.
pub fn handle_key_focused_preview(key: KeyEvent, app: &mut TuiApp, now: Timestamp) -> (r: Option<
    Vec<Effect>,
>)
    ensures
        match r {
            Some(effects) => focused_preview_spec(key, *old(app), now) == Some(
                (*final(app), effects@),
            ),
            None => focused_preview_spec(key, *old(app), now) is None && *final(app) == *old(app),
        },
{
    if app.engine.focused_preview_files_open {
        return Some(files_list_key(key, app));
    }
    if chord_may_complete(&key, app, now) {
        return None;
    }
    match Keymap::resolve(InputScope::FocusedPreview, &key) {
        Some(Command::Close) => {
            app.clear_input_chords();
            return Some(run(AppCommand::CloseFocusedPreview));
        },
        Some(Command::Quit) => {
            return Some(app.quit());
        },
        _ => {},
    }
    let is_o = key.code == KeyCode::Char('o') || key.code == KeyCode::Char('O');
    if is_o && !key.modifiers.control && app.space_leader_at.is_none()
        && app.focused_preview_chip_visible() {
        return Some(app.toggle_focused_preview_files());
    }
    if viewing_key(&key) {
        None
    } else {
        Some(none())
    }
}

/// Whether a key changes files or the index on some tab.
pub open spec fn is_destructive(key: KeyEvent) -> bool {
    match key.code {
        KeyCode::Char(c) => c == 's' || c == 'u' || c == 'd' || c == 't' || c == 'r',
        KeyCode::F(n) => n == 2,
        KeyCode::Delete => true,
        KeyCode::Backspace => true,
        _ => false,
    }
}

/// The focused preview shows neither the tree nor the status list, so no key that
/// would change a row of them gets through: it is swallowed unless it may complete a
/// chord that waits.
pub proof fn destructive_keys_are_swallowed(key: KeyEvent, app: TuiApp, now: Timestamp)
    requires
        is_destructive(key),
        !may_complete_chord(key, app, now),
    ensures
        focused_preview_spec(key, app, now) == Some((app, nothing())),
{
    lemma_unbound(InputScope::FocusedPreview, key);
}

/// While the list of changed files is up, every key is its own: none is left to the
/// tab.
pub proof fn files_list_owns_the_keyboard(key: KeyEvent, app: TuiApp, now: Timestamp)
    requires
        app.engine.focused_preview_files_open,
    ensures
        focused_preview_spec(key, app, now) == Some((app, files_list_effects(key, app))),
{
}

/// A leader that has timed out lets nothing through, however long ago it was pressed.
pub proof fn stale_leaders_let_nothing_through(key: KeyEvent, app: TuiApp, now: Timestamp)
    requires
        !leader_waits(app, now),
        !g_waits(app, now),
        !is_viewing_key(key),
    ensures
        focused_preview_spec(key, app, now) is Some,
{
}

} // verus!
