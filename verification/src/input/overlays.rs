//! Keys of the prompts, menus and pickers that own the keyboard while they are up.

use crate::app::TuiApp;
use crate::command::{
    input_modifiers, none, nothing, one, run, run_and_drain, run_only, run_then_drain, two,
    AppCommand, Effect, Resolution,
};
use crate::engine::{ConfirmRequest, InputMode, SettingItem};
use crate::event::{KeyCode, KeyEvent};
use crate::input_edit::{op_for_key, single_line_op};
use crate::keymap::{
    lemma_resolved_is_bound, resolved, text_fields_bind_no_plain_character, Command, InputScope,
    Keymap,
};
use crate::picker_core::{input_for_key, picker_input};
use crate::settings;
use crate::settings::cycle_spec;
use vstd::prelude::*;

verus! {

/// What the page prompt of a database preview makes of a key.
pub open spec fn db_goto_effects(key: KeyEvent) -> Seq<Effect> {
    match resolved(InputScope::DbGoto, key) {
        Some(Command::Confirm) => run_only(AppCommand::ConfirmDbGoto),
        Some(Command::Close) => run_only(AppCommand::CloseDbGoto),
        _ => match single_line_op(key) {
            Some(op) => run_only(AppCommand::EditDbGoto(op)),
            None => nothing(),
        },
    }
}

/// Gives a key to the page prompt of a database preview. What it lets into the number
/// is for the engine to say.
pub fn handle_key_db_goto(key: KeyEvent) -> (r: Vec<Effect>)
    ensures
        r@ == db_goto_effects(key),
{
    match Keymap::resolve(InputScope::DbGoto, &key) {
        Some(Command::Confirm) => run(AppCommand::ConfirmDbGoto),
        Some(Command::Close) => run(AppCommand::CloseDbGoto),
        _ => match op_for_key(&key) {
            Some(op) => run(AppCommand::EditDbGoto(op)),
            None => none(),
        },
    }
}

/// What the inline editor of the file tree makes of a key. Only a bare Enter takes the
/// name over.
pub open spec fn tree_edit_effects(key: KeyEvent) -> Seq<Effect> {
    let command = resolved(InputScope::TreeEdit, key);
    if command == Some(Command::Close) || command == Some(Command::Quit) {
        run_only(AppCommand::CancelTreeEdit)
    } else if command == Some(Command::Confirm) && !key.modifiers.control && !key.modifiers.alt
        && !key.modifiers.shift {
        run_only(AppCommand::CommitTreeEdit)
    } else {
        match single_line_op(key) {
            Some(op) => run_only(AppCommand::EditTreeEditInput(op)),
            None => nothing(),
        }
    }
}

/// Gives a key to the inline editor of the file tree.
pub fn handle_key_tree_edit(key: KeyEvent) -> (r: Vec<Effect>)
    ensures
        r@ == tree_edit_effects(key),
{
    let bare = !key.modifiers.control && !key.modifiers.alt && !key.modifiers.shift;
    match Keymap::resolve(InputScope::TreeEdit, &key) {
        Some(Command::Close) | Some(Command::Quit) => {
            return run(AppCommand::CancelTreeEdit);
        },
        Some(Command::Confirm) => {
            if bare {
                return run(AppCommand::CommitTreeEdit);
            }
        },
        _ => {},
    }
    match op_for_key(&key) {
        Some(op) => run(AppCommand::EditTreeEditInput(op)),
        None => none(),
    }
}

/// What the tree's context menu makes of a key. One that it does not know takes it
/// down.
pub open spec fn context_menu_effects(key: KeyEvent, app: TuiApp) -> Seq<Effect> {
    match resolved(InputScope::TreeContextMenu, key) {
        Some(Command::MoveUp) => run_only(AppCommand::NavigateTreeContextMenu((-1) as i32)),
        Some(Command::MoveDown) => run_only(AppCommand::NavigateTreeContextMenu(1)),
        Some(Command::Confirm) => match app.engine.tree.menu_current {
            Some(item) => app.picked_effects(item),
            None => nothing(),
        },
        _ => run_only(AppCommand::CloseTreeContextMenu),
    }
}

/// Gives a key to the tree's context menu.
pub fn handle_key_tree_context_menu(key: KeyEvent, app: &TuiApp) -> (r: Vec<Effect>)
    ensures
        r@ == context_menu_effects(key, *app),
{
    match Keymap::resolve(InputScope::TreeContextMenu, &key) {
        Some(Command::MoveUp) => run(AppCommand::NavigateTreeContextMenu(-1)),
        Some(Command::MoveDown) => run(AppCommand::NavigateTreeContextMenu(1)),
        Some(Command::Confirm) => match app.engine.tree.menu_current {
            Some(item) => app.dispatch_context_menu_item(item),
            None => none(),
        },
        _ => app.close_tree_context_menu(),
    }
}

/// What the list of definitions makes of a key. One that it does not know takes it
/// down.
pub open spec fn nav_candidates_effects(key: KeyEvent) -> Seq<Effect> {
    match resolved(InputScope::NavCandidates, key) {
        Some(Command::MoveUp) => seq![Effect::NavMoveCandidates((-1) as i32)],
        Some(Command::MoveDown) => seq![Effect::NavMoveCandidates(1)],
        Some(Command::Confirm) => seq![Effect::NavPickCandidate],
        _ => seq![Effect::NavCloseCandidates],
    }
}

/// Gives a key to the list of definitions.
pub fn handle_key_nav_candidates(key: KeyEvent) -> (r: Vec<Effect>)
    ensures
        r@ == nav_candidates_effects(key),
{
    match Keymap::resolve(InputScope::NavCandidates, &key) {
        Some(Command::MoveUp) => one(Effect::NavMoveCandidates(-1)),
        Some(Command::MoveDown) => one(Effect::NavMoveCandidates(1)),
        Some(Command::Confirm) => one(Effect::NavPickCandidate),
        _ => one(Effect::NavCloseCandidates),
    }
}

/// What the hosts picker makes of a key. Control+P goes over to a typed target and
/// back, and Escape leaves the typed target before it leaves the picker.
pub open spec fn hosts_picker_effects(key: KeyEvent, mode: InputMode) -> Seq<Effect> {
    let command = resolved(InputScope::HostsPicker, key);
    match mode {
        InputMode::Search => if command == Some(Command::TogglePickerPathMode) {
            run_only(AppCommand::EnterHostsPickerPathMode)
        } else {
            run_and_drain(
                AppCommand::ApplyHostsPickerSearchInput(picker_input(InputScope::HostsPicker, key)),
            )
        },
        InputMode::Path => match command {
            Some(Command::Close) => run_only(AppCommand::ReturnHostsPickerToSearchMode),
            Some(Command::TogglePickerPathMode) => run_only(
                AppCommand::ReturnHostsPickerToSearchMode,
            ),
            Some(Command::Quit) => seq![
                Effect::Run(AppCommand::CloseHostsPicker),
                Effect::Run(AppCommand::Quit),
            ],
            Some(Command::Confirm) => run_and_drain(AppCommand::ConfirmHostsPicker),
            _ => match single_line_op(key) {
                Some(op) => run_only(AppCommand::EditHostsPickerPathInput(op)),
                None => nothing(),
            },
        },
    }
}

/// Gives a key to the hosts picker.
pub fn handle_key_hosts_picker(key: KeyEvent, app: &TuiApp) -> (r: Vec<Effect>)
    ensures
        r@ == hosts_picker_effects(key, app.engine.hosts_picker_mode),
{
    match app.engine.hosts_picker_mode {
        InputMode::Search => {
            if let Some(Command::TogglePickerPathMode) = Keymap::resolve(
                InputScope::HostsPicker,
                &key,
            ) {
                return run(AppCommand::EnterHostsPickerPathMode);
            }
            let input = input_for_key(InputScope::HostsPicker, &key);
            run_then_drain(AppCommand::ApplyHostsPickerSearchInput(input))
        },
        InputMode::Path => match Keymap::resolve(InputScope::HostsPicker, &key) {
            Some(Command::Close) => run(AppCommand::ReturnHostsPickerToSearchMode),
            Some(Command::TogglePickerPathMode) => run(AppCommand::ReturnHostsPickerToSearchMode),
            Some(Command::Quit) => two(
                Effect::Run(AppCommand::CloseHostsPicker),
                Effect::Run(AppCommand::Quit),
            ),
            Some(Command::Confirm) => app.confirm_hosts_picker(),
            _ => match op_for_key(&key) {
                Some(op) => run(AppCommand::EditHostsPickerPathInput(op)),
                None => none(),
            },
        },
    }
}

/// What the graph's branch picker makes of a key.
pub open spec fn branch_picker_effects(key: KeyEvent) -> Seq<Effect> {
    run_and_drain(
        AppCommand::ApplyGraphBranchPickerInput {
            input: picker_input(InputScope::GraphBranchPicker, key),
            visible_rows: 0,
        },
    )
}

/// Gives a key to the graph's branch picker.
pub fn handle_key_graph_branch_picker(key: KeyEvent) -> (r: Vec<Effect>)
    ensures
        r@ == branch_picker_effects(key),
{
    let input = input_for_key(InputScope::GraphBranchPicker, &key);
    run_then_drain(AppCommand::ApplyGraphBranchPickerInput { input, visible_rows: 0 })
}

/// Whether a character says yes to a question.
pub fn confirm_key_matches(request: &ConfirmRequest, c: char) -> (r: bool)
    ensures
        r == request.confirm_keys@.contains(c),
{
    let mut i: usize = 0;
    while i < request.confirm_keys.len()
        invariant
            i <= request.confirm_keys@.len(),
            forall|k: int| 0 <= k < i ==> request.confirm_keys@[k] != c,
        decreases request.confirm_keys@.len() - i,
    {
        if request.confirm_keys[i] == c {
            return true;
        }
        i += 1;
    }
    false
}

/// Whether a key says yes to the question that is up: one of the characters that the
/// question names, without Control or Alt.
pub open spec fn says_yes(key: KeyEvent, app: TuiApp) -> bool {
    match key.code {
        KeyCode::Char(c) => !key.modifiers.control && !key.modifiers.alt && (
        match app.engine.confirm {
            Some(request) => request.confirm_keys@.contains(c),
            None => false,
        }),
        _ => false,
    }
}

/// Whether a key says no to the question that is up.
pub open spec fn says_no(key: KeyEvent) -> bool {
    !key.modifiers.control && !key.modifiers.alt && (match key.code {
        KeyCode::Char(c) => c == 'n' || c == 'N' || c == 'c' || c == 'C',
        KeyCode::Esc => true,
        _ => false,
    })
}

/// What a key does while a question is up. Whatever is neither yes nor no, Enter among
/// it, is swallowed; Control+C quits.
pub open spec fn confirm_key_effects(key: KeyEvent, app: TuiApp) -> Seq<Effect> {
    if key.code == KeyCode::Char('c') && key.modifiers.control {
        run_only(AppCommand::Quit)
    } else if says_yes(key, app) {
        app.confirm_effects()
    } else if says_no(key) {
        run_only(AppCommand::DismissConfirm)
    } else {
        nothing()
    }
}

/// Gives a key to the question that is up.
pub fn handle_key_confirm_modal(key: KeyEvent, app: &TuiApp) -> (r: Vec<Effect>)
    ensures
        r@ == confirm_key_effects(key, *app),
{
    let ctrl = key.modifiers.control;
    let alt = key.modifiers.alt;
    if key.code == KeyCode::Char('c') && ctrl {
        return app.quit();
    }
    if ctrl || alt {
        return none();
    }
    match key.code {
        KeyCode::Char(c) => {
            let confirms = match &app.engine.confirm {
                Some(request) => confirm_key_matches(request, c),
                None => false,
            };
            if confirms {
                app.fire_confirm_primary()
            } else if c == 'n' || c == 'N' || c == 'c' || c == 'C' {
                app.fire_confirm_cancel()
            } else {
                none()
            }
        },
        KeyCode::Esc => app.fire_confirm_cancel(),
        _ => none(),
    }
}

/// What settling the current paste conflict asks for.
pub open spec fn settle_effects(resolution: Resolution, apply_to_all: bool) -> Seq<Effect> {
    run_and_drain(AppCommand::ResolvePasteConflict { resolution, apply_to_all })
}

/// What a key does while a paste waits for the user's word on a taken name.
pub open spec fn paste_conflict_effects(key: KeyEvent, app: TuiApp) -> Seq<Effect> {
    let shift = key.modifiers.shift;
    match key.code {
        KeyCode::Esc => run_and_drain(AppCommand::CancelPasteConflict),
        KeyCode::Char(c) => if c == 'c' && key.modifiers.control {
            run_only(AppCommand::Quit)
        } else if c == 'c' || c == 'C' {
            run_and_drain(AppCommand::CancelPasteConflict)
        } else if c == 'r' || c == 'R' {
            settle_effects(Resolution::Replace, shift)
        } else if c == 's' || c == 'S' {
            settle_effects(Resolution::Skip, shift)
        } else if c == 'k' || c == 'K' {
            settle_effects(Resolution::KeepBoth(app.engine.tree.keep_both_name), false)
        } else if c == 'a' || c == 'A' {
            settle_effects(Resolution::Replace, true)
        } else {
            nothing()
        },
        _ => nothing(),
    }
}

/// Gives a key to the paste that waits. Shift makes the word stand for all that is
/// left; keys that mean nothing here keep the prompt up.
pub fn handle_key_paste_conflict(key: KeyEvent, app: &TuiApp) -> (r: Vec<Effect>)
    ensures
        r@ == paste_conflict_effects(key, *app),
{
    let shift = key.modifiers.shift;
    match key.code {
        KeyCode::Esc => app.cancel_paste_conflict(),
        KeyCode::Char('c' | 'C') => {
            if key.modifiers.control && key.code == KeyCode::Char('c') {
                app.quit()
            } else {
                app.cancel_paste_conflict()
            }
        },
        KeyCode::Char('r' | 'R') => app.resolve_paste_conflict(Resolution::Replace, shift),
        KeyCode::Char('s' | 'S') => app.resolve_paste_conflict(Resolution::Skip, shift),
        KeyCode::Char('k' | 'K') => app.resolve_paste_conflict(
            Resolution::KeepBoth(app.keep_both_name_for_current_conflict()),
            false,
        ),
        KeyCode::Char('a' | 'A') => app.resolve_paste_conflict(Resolution::Replace, true),
        _ => none(),
    }
}

/// The name that a kept second file gets: the one that was found for it, or `copy`.
pub fn keep_both_text(name: &Option<String>) -> (r: String)
    ensures
        r@ == (match name {
            Some(found) => found@,
            None => "copy"@,
        }),
{
    match name {
        Some(found) => found.clone(),
        None => "copy".to_string(),
    }
}

/// What a key does while dropped files wait for a destination. All but leaving is for
/// the mouse.
pub open spec fn place_mode_effects(key: KeyEvent) -> Seq<Effect> {
    match resolved(InputScope::PlaceMode, key) {
        Some(Command::Close) => run_only(AppCommand::ExitPlaceMode),
        Some(Command::Quit) => run_only(AppCommand::Quit),
        _ => nothing(),
    }
}

/// Gives a key to the dropped files that wait for a destination.
pub fn handle_key_place_mode(key: KeyEvent) -> (r: Vec<Effect>)
    ensures
        r@ == place_mode_effects(key),
{
    match Keymap::resolve(InputScope::PlaceMode, &key) {
        Some(Command::Close) => run(AppCommand::ExitPlaceMode),
        Some(Command::Quit) => run(AppCommand::Quit),
        _ => none(),
    }
}

/// What a key does during a drag in the file tree. One with no meaning of its own
/// still tells which modifiers are held.
pub open spec fn tree_drag_key_effects(key: KeyEvent) -> Seq<Effect> {
    match resolved(InputScope::TreeDrag, key) {
        Some(Command::Close) => run_only(AppCommand::CancelTreeDrag),
        Some(Command::Quit) => run_only(AppCommand::Quit),
        _ => run_only(AppCommand::UpdateTreeDragModifiers(input_modifiers(key.modifiers))),
    }
}

/// Gives a key to a drag in the file tree.
pub fn handle_key_tree_drag(key: KeyEvent) -> (r: Vec<Effect>)
    ensures
        r@ == tree_drag_key_effects(key),
{
    match Keymap::resolve(InputScope::TreeDrag, &key) {
        Some(Command::Close) => run(AppCommand::CancelTreeDrag),
        Some(Command::Quit) => run(AppCommand::Quit),
        _ => run(AppCommand::UpdateTreeDragModifiers(input_modifiers(key.modifiers))),
    }
}

/// What a key does while the editor command is typed: Enter takes it over, Escape
/// drops it, and anything else that edits a line edits it.
pub open spec fn settings_editor_effects(key: KeyEvent) -> Seq<Effect> {
    let command = resolved(InputScope::Settings, key);
    if command == Some(Command::Close) {
        run_only(AppCommand::CancelSettingsEditorCommandEdit)
    } else if command == Some(Command::Confirm) && key.code == KeyCode::Enter {
        seq![Effect::CommitEditorCommand]
    } else {
        match single_line_op(key) {
            Some(op) => run_only(AppCommand::EditSettingsEditorCommand(op)),
            None => nothing(),
        }
    }
}

/// Gives a key to the editor command that is typed.
pub fn handle_key_settings_editor(key: KeyEvent) -> (r: Vec<Effect>)
    ensures
        r@ == settings_editor_effects(key),
{
    match Keymap::resolve(InputScope::Settings, &key) {
        Some(Command::Close) => {
            return run(AppCommand::CancelSettingsEditorCommandEdit);
        },
        Some(Command::Confirm) => {
            if key.code == KeyCode::Enter {
                return one(Effect::CommitEditorCommand);
            }
        },
        _ => {},
    }
    match op_for_key(&key) {
        Some(op) => run(AppCommand::EditSettingsEditorCommand(op)),
        None => none(),
    }
}

/// What a key does on the settings page.
pub open spec fn settings_key_spec(key: KeyEvent, app: TuiApp) -> (TuiApp, Seq<Effect>) {
    let settings = app.engine.settings;
    if settings.editing_editor_command {
        (app, settings_editor_effects(key))
    } else {
        match resolved(InputScope::Settings, key) {
            Some(Command::Close) => (
                app,
                seq![
                    Effect::Run(AppCommand::CloseSettings),
                    Effect::Run(AppCommand::CancelSettingsEditorCommandEdit),
                ],
            ),
            Some(Command::Quit) => (app, run_only(AppCommand::Quit)),
            Some(Command::MoveUp) => (
                app,
                run_only(AppCommand::MoveSettingsSelection((-1) as i32)),
            ),
            Some(Command::MoveDown) => (app, run_only(AppCommand::MoveSettingsSelection(1))),
            Some(Command::ScrollTop) => (app, run_only(AppCommand::SelectSettingsRow(0))),
            Some(Command::ScrollBottom) => (
                app,
                run_only(
                    AppCommand::SelectSettingsRow(
                        crate::layout::monus(settings.row_count as int, 1) as usize,
                    ),
                ),
            ),
            Some(Command::Confirm) => if settings.selected == SettingItem::EditorCommand {
                (app, run_only(AppCommand::BeginSettingsEditorCommandEdit))
            } else {
                cycle_spec(app, settings.selected)
            },
            _ => (app, nothing()),
        }
    }
}

/// Gives a key to the settings page, which owns the keyboard while it is open.
pub fn handle_key_settings(key: KeyEvent, app: &mut TuiApp) -> (r: Vec<Effect>)
    ensures
        *final(app) == settings_key_spec(key, *old(app)).0,
        r@ == settings_key_spec(key, *old(app)).1,
{
    if app.engine.settings.editing_editor_command {
        return handle_key_settings_editor(key);
    }
    match Keymap::resolve(InputScope::Settings, &key) {
        Some(Command::Close) => app.close_settings(),
        Some(Command::Quit) => app.quit(),
        Some(Command::MoveUp) => run(AppCommand::MoveSettingsSelection(-1)),
        Some(Command::MoveDown) => run(AppCommand::MoveSettingsSelection(1)),
        Some(Command::ScrollTop) => run(AppCommand::SelectSettingsRow(0)),
        Some(Command::ScrollBottom) => run(
            AppCommand::SelectSettingsRow(app.engine.settings.row_count.saturating_sub(1)),
        ),
        Some(Command::Confirm) => {
            let item = app.engine.settings.selected;
            if item == SettingItem::EditorCommand {
                run(AppCommand::BeginSettingsEditorCommandEdit)
            } else {
                settings::cycle(app, item)
            }
        },
        _ => none(),
    }
}

/// A question is never answered with yes by accident: not by Enter, and by no character
/// that is held with Control or Alt.
pub proof fn yes_is_deliberate(key: KeyEvent, app: TuiApp)
    requires
        key.code == KeyCode::Enter || key.modifiers.control || key.modifiers.alt,
    ensures
        !says_yes(key, app),
        confirm_key_effects(key, app) == (if key.code == KeyCode::Char('c')
            && key.modifiers.control {
            run_only(AppCommand::Quit)
        } else {
            nothing()
        }),
{
}

/// While a question is up a key can only answer it, quit, or do nothing.
pub proof fn questions_swallow_other_keys(key: KeyEvent, app: TuiApp)
    requires
        app.engine.confirm is Some,
    ensures
        ({
            let effects = confirm_key_effects(key, app);
            ||| effects == nothing()
            ||| effects == run_only(AppCommand::Quit)
            ||| effects == run_only(AppCommand::DismissConfirm)
            ||| effects == app.confirm_effects()
        }),
{
}

/// Typing a plain character into a prompt that edits a line puts it there, and does
/// nothing else.
pub proof fn plain_characters_only_edit_the_prompt(key: KeyEvent, c: char)
    requires
        key.code == KeyCode::Char(c),
        !key.modifiers.control,
        !key.modifiers.alt,
    ensures
        single_line_op(key) is Some,
        db_goto_effects(key) == run_only(AppCommand::EditDbGoto(single_line_op(key)->0)),
        tree_edit_effects(key) == run_only(AppCommand::EditTreeEditInput(single_line_op(key)->0)),
        hosts_picker_effects(key, InputMode::Path) == run_only(
            AppCommand::EditHostsPickerPathInput(single_line_op(key)->0),
        ),
        settings_editor_effects(key) == run_only(
            AppCommand::EditSettingsEditorCommand(single_line_op(key)->0),
        ),
{
    if resolved(InputScope::Settings, key) == Some(Command::Close) {
        let i = lemma_resolved_is_bound(InputScope::Settings, key);
        assert(crate::keymap::settings_table()[i].command != Command::Close);
    }
    text_fields_bind_no_plain_character(InputScope::DbGoto, key);
    text_fields_bind_no_plain_character(InputScope::TreeEdit, key);
    text_fields_bind_no_plain_character(InputScope::HostsPicker, key);
}

} // verus!
