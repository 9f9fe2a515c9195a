//! What the keys ask for while something else than a tab has the keyboard.

use crate::app::{FindWidgetUiState, Theme, TuiApp};
use crate::command::{
    AppCommand, Effect, FindWidgetToggle, InputModifiers, Resolution, Resume, Toast, ToastLevel,
    ToastText,
};
use crate::engine::{InputMode, Panel, SearchPanelFocus, SettingItem, Tab, ThemePref, ViewMode};
use crate::event::{KeyCode, KeyEvent};
use crate::input::focused_preview::focused_preview_spec;
use crate::input::keys::key_spec;
use crate::input_edit::{single_line_op, TextEditOp};
use crate::input_edit_multi::multi_line_op;
use crate::keymap::{keyboard_owner, InputScope};
use crate::laws::bindings::{
    keys_of_commit_editor, keys_of_db_goto, keys_of_find_widget, keys_of_focused_preview,
    keys_of_global_search, keys_of_graph_branch_picker, keys_of_hosts_picker,
    keys_of_nav_candidates, keys_of_place_mode, keys_of_quick_open,
    keys_of_search_input, keys_of_settings, keys_of_tree_context_menu, keys_of_tree_drag,
    keys_of_tree_edit, keys_of_vim_search,
};
use crate::laws::held::{alt, alt_shift, ctrl, ctrl_alt, ctrl_shift, plain, shift};
use crate::picker_core::{picker_input, PickerInput};
use crate::time::Timestamp;
use vstd::prelude::*;

verus! {

/// Of the things that are up, the one that lies on top has the keyboard: a prompt before the
/// pickers, these before the palettes and the search, then what belongs to the tree, the
/// questions, and at last the pages and the fields of a tab.
pub proof fn what_lies_on_top_has_the_keyboard(app: TuiApp)
    ensures
        ({
            let engine = app.engine;
            &&& keyboard_owner(app) == InputScope::DbGoto <==> engine.overlays.db_goto
            &&& keyboard_owner(app) == InputScope::HostsPicker <==> engine.overlays.hosts_picker
                && !engine.overlays.db_goto
            &&& keyboard_owner(app) == InputScope::GraphBranchPicker <==> engine.overlays.graph_branch_picker
                && !engine.overlays.db_goto
                && !engine.overlays.hosts_picker
            &&& keyboard_owner(app) == InputScope::FindWidget <==> engine.find_widget.active
                && !engine.overlays.db_goto
                && !engine.overlays.hosts_picker
                && !engine.overlays.graph_branch_picker
            &&& keyboard_owner(app) == InputScope::GlobalSearch <==> engine.overlays.global_search
                && !engine.overlays.db_goto
                && !engine.overlays.hosts_picker
                && !engine.overlays.graph_branch_picker
                && !engine.find_widget.active
            &&& keyboard_owner(app) == InputScope::QuickOpen <==> engine.overlays.quick_open
                && !engine.overlays.db_goto
                && !engine.overlays.hosts_picker
                && !engine.overlays.graph_branch_picker
                && !engine.find_widget.active
                && !engine.overlays.global_search
            &&& keyboard_owner(app) == InputScope::VimSearch <==> engine.vim_search.active
                && !engine.overlays.db_goto
                && !engine.overlays.hosts_picker
                && !engine.overlays.graph_branch_picker
                && !engine.find_widget.active
                && !engine.overlays.global_search
                && !engine.overlays.quick_open
            &&& keyboard_owner(app) == InputScope::TreeEdit <==> engine.overlays.tree_edit
                && !engine.overlays.db_goto
                && !engine.overlays.hosts_picker
                && !engine.overlays.graph_branch_picker
                && !engine.find_widget.active
                && !engine.overlays.global_search
                && !engine.overlays.quick_open
                && !engine.vim_search.active
            &&& keyboard_owner(app) == InputScope::TreeContextMenu <==> engine.overlays.tree_context_menu
                && !engine.overlays.db_goto
                && !engine.overlays.hosts_picker
                && !engine.overlays.graph_branch_picker
                && !engine.find_widget.active
                && !engine.overlays.global_search
                && !engine.overlays.quick_open
                && !engine.vim_search.active
                && !engine.overlays.tree_edit
            &&& keyboard_owner(app) == InputScope::NavCandidates <==> engine.overlays.nav_candidates
                && !engine.overlays.db_goto
                && !engine.overlays.hosts_picker
                && !engine.overlays.graph_branch_picker
                && !engine.find_widget.active
                && !engine.overlays.global_search
                && !engine.overlays.quick_open
                && !engine.vim_search.active
                && !engine.overlays.tree_edit
                && !engine.overlays.tree_context_menu
            &&& keyboard_owner(app) == InputScope::ConfirmModal <==> engine.confirm is Some
                && !engine.overlays.db_goto
                && !engine.overlays.hosts_picker
                && !engine.overlays.graph_branch_picker
                && !engine.find_widget.active
                && !engine.overlays.global_search
                && !engine.overlays.quick_open
                && !engine.vim_search.active
                && !engine.overlays.tree_edit
                && !engine.overlays.tree_context_menu
                && !engine.overlays.nav_candidates
            &&& keyboard_owner(app) == InputScope::PasteConflict <==> engine.overlays.paste_conflict
                && !engine.overlays.db_goto
                && !engine.overlays.hosts_picker
                && !engine.overlays.graph_branch_picker
                && !engine.find_widget.active
                && !engine.overlays.global_search
                && !engine.overlays.quick_open
                && !engine.vim_search.active
                && !engine.overlays.tree_edit
                && !engine.overlays.tree_context_menu
                && !engine.overlays.nav_candidates
                && engine.confirm is None
            &&& keyboard_owner(app) == InputScope::PlaceMode <==> engine.overlays.place_mode
                && !engine.overlays.db_goto
                && !engine.overlays.hosts_picker
                && !engine.overlays.graph_branch_picker
                && !engine.find_widget.active
                && !engine.overlays.global_search
                && !engine.overlays.quick_open
                && !engine.vim_search.active
                && !engine.overlays.tree_edit
                && !engine.overlays.tree_context_menu
                && !engine.overlays.nav_candidates
                && engine.confirm is None
                && !engine.overlays.paste_conflict
            &&& keyboard_owner(app) == InputScope::TreeDrag <==> engine.overlays.tree_drag
                && !engine.overlays.db_goto
                && !engine.overlays.hosts_picker
                && !engine.overlays.graph_branch_picker
                && !engine.find_widget.active
                && !engine.overlays.global_search
                && !engine.overlays.quick_open
                && !engine.vim_search.active
                && !engine.overlays.tree_edit
                && !engine.overlays.tree_context_menu
                && !engine.overlays.nav_candidates
                && engine.confirm is None
                && !engine.overlays.paste_conflict
                && !engine.overlays.place_mode
            &&& keyboard_owner(app) == InputScope::Settings <==> engine.view_mode == ViewMode::Settings
                && !engine.overlays.db_goto
                && !engine.overlays.hosts_picker
                && !engine.overlays.graph_branch_picker
                && !engine.find_widget.active
                && !engine.overlays.global_search
                && !engine.overlays.quick_open
                && !engine.vim_search.active
                && !engine.overlays.tree_edit
                && !engine.overlays.tree_context_menu
                && !engine.overlays.nav_candidates
                && engine.confirm is None
                && !engine.overlays.paste_conflict
                && !engine.overlays.place_mode
                && !engine.overlays.tree_drag
            &&& keyboard_owner(app) == InputScope::FocusedPreview <==> engine.view_mode == ViewMode::FocusedPreview
                && !engine.overlays.db_goto
                && !engine.overlays.hosts_picker
                && !engine.overlays.graph_branch_picker
                && !engine.find_widget.active
                && !engine.overlays.global_search
                && !engine.overlays.quick_open
                && !engine.vim_search.active
                && !engine.overlays.tree_edit
                && !engine.overlays.tree_context_menu
                && !engine.overlays.nav_candidates
                && engine.confirm is None
                && !engine.overlays.paste_conflict
                && !engine.overlays.place_mode
                && !engine.overlays.tree_drag
                && engine.view_mode != ViewMode::Settings
            &&& keyboard_owner(app) == InputScope::CommitEditor <==> engine.overlays.commit_editor
                && !engine.overlays.db_goto
                && !engine.overlays.hosts_picker
                && !engine.overlays.graph_branch_picker
                && !engine.find_widget.active
                && !engine.overlays.global_search
                && !engine.overlays.quick_open
                && !engine.vim_search.active
                && !engine.overlays.tree_edit
                && !engine.overlays.tree_context_menu
                && !engine.overlays.nav_candidates
                && engine.confirm is None
                && !engine.overlays.paste_conflict
                && !engine.overlays.place_mode
                && !engine.overlays.tree_drag
                && engine.view_mode != ViewMode::Settings
                && engine.view_mode != ViewMode::FocusedPreview
            &&& keyboard_owner(app) == InputScope::SearchInput <==> engine.overlays.search_input
                && !engine.overlays.db_goto
                && !engine.overlays.hosts_picker
                && !engine.overlays.graph_branch_picker
                && !engine.find_widget.active
                && !engine.overlays.global_search
                && !engine.overlays.quick_open
                && !engine.vim_search.active
                && !engine.overlays.tree_edit
                && !engine.overlays.tree_context_menu
                && !engine.overlays.nav_candidates
                && engine.confirm is None
                && !engine.overlays.paste_conflict
                && !engine.overlays.place_mode
                && !engine.overlays.tree_drag
                && engine.view_mode != ViewMode::Settings
                && engine.view_mode != ViewMode::FocusedPreview
                && !engine.overlays.commit_editor
        }),
{
}

/// At the page prompt Enter goes to the page, Escape takes the prompt down, and other
/// keys edit what is typed.
pub proof fn page_prompt_keys(
    key: KeyEvent,
    app: TuiApp,
    now: Timestamp,
    selected_text: Option<String>,
)
    requires
        keyboard_owner(app) == InputScope::DbGoto,
    ensures
        ({
            let asked = key_spec(key, app, now, selected_text);
            &&& key == plain(KeyCode::Enter) ==> asked == (
                    app,
                    seq![Effect::Run(AppCommand::ConfirmDbGoto)],
                )
            &&& key == plain(KeyCode::Esc) ==> asked == (
                    app,
                    seq![Effect::Run(AppCommand::CloseDbGoto)],
                )
            &&& single_line_op(key) is Some && key != plain(KeyCode::Enter)
                && key != plain(KeyCode::Esc) ==> asked == (
                    app,
                    seq![Effect::Run(AppCommand::EditDbGoto(single_line_op(key)->0))],
                )
            &&& single_line_op(key) is None && key != plain(KeyCode::Enter)
                && key != plain(KeyCode::Esc) ==> asked == (app, Seq::<Effect>::empty())
        }),
{
    keys_of_db_goto(key);
}

/// While a name is typed in the tree, Enter takes it over, Escape and Control+C forget
/// it, and other keys edit it.
pub proof fn name_editor_keys(
    key: KeyEvent,
    app: TuiApp,
    now: Timestamp,
    selected_text: Option<String>,
)
    requires
        keyboard_owner(app) == InputScope::TreeEdit,
    ensures
        ({
            let asked = key_spec(key, app, now, selected_text);
            &&& key == plain(KeyCode::Enter) ==> asked == (
                    app,
                    seq![Effect::Run(AppCommand::CommitTreeEdit)],
                )
            &&& (key == plain(KeyCode::Esc) || key == ctrl(KeyCode::Char('c'))) ==> asked == (
                    app,
                    seq![Effect::Run(AppCommand::CancelTreeEdit)],
                )
            &&& single_line_op(key) is Some && key != plain(KeyCode::Enter)
                && key != plain(KeyCode::Esc) && key != ctrl(KeyCode::Char('c')) ==> asked == (
                    app,
                    seq![Effect::Run(AppCommand::EditTreeEditInput(single_line_op(key)->0))],
                )
            &&& single_line_op(key) is None && key != plain(KeyCode::Enter)
                && key != plain(KeyCode::Esc) && key != ctrl(KeyCode::Char('c')) ==> asked == (
                    app,
                    Seq::<Effect>::empty(),
                )
        }),
{
    keys_of_tree_edit(key);
}

/// While a search is typed, Enter keeps it, Escape and Control+C give it up, and other
/// keys edit it.
pub proof fn search_prompt_keys(
    key: KeyEvent,
    app: TuiApp,
    now: Timestamp,
    selected_text: Option<String>,
)
    requires
        keyboard_owner(app) == InputScope::VimSearch,
    ensures
        ({
            let asked = key_spec(key, app, now, selected_text);
            &&& key == plain(KeyCode::Enter) ==> asked == (
                    app,
                    seq![Effect::Run(AppCommand::ConfirmVimSearch)],
                )
            &&& (key == plain(KeyCode::Esc) || key == ctrl(KeyCode::Char('c'))) ==> asked == (
                    app,
                    seq![Effect::Run(AppCommand::CancelVimSearch { dark: app.theme.is_dark })],
                )
            &&& single_line_op(key) is Some && key != plain(KeyCode::Enter)
                && key != plain(KeyCode::Esc) && key != ctrl(KeyCode::Char('c')) ==> asked == (
                    app,
                    seq![
                        Effect::Run(
                            AppCommand::EditVimSearchInput(single_line_op(key)->0)), Effect::Then(Resume::RuntimeEvents,
                        ),
                    ],
                )
            &&& single_line_op(key) is None && key != plain(KeyCode::Enter)
                && key != plain(KeyCode::Esc) && key != ctrl(KeyCode::Char('c')) ==> asked == (
                    app,
                    Seq::<Effect>::empty(),
                )
        }),
{
    keys_of_vim_search(key);
}

/// In the context menu of the tree the arrows, `k` and `j` go through the items, and any
/// key that is not one of these and not Enter takes the menu down.
pub proof fn context_menu_keys(
    key: KeyEvent,
    app: TuiApp,
    now: Timestamp,
    selected_text: Option<String>,
)
    requires
        keyboard_owner(app) == InputScope::TreeContextMenu,
    ensures
        ({
            let asked = key_spec(key, app, now, selected_text);
            &&& (key == plain(KeyCode::Up) || key == plain(KeyCode::Char('k'))) ==> asked == (
                    app,
                    seq![Effect::Run(AppCommand::NavigateTreeContextMenu((-1) as i32))],
                )
            &&& (key == plain(KeyCode::Down) || key == plain(KeyCode::Char('j'))) ==> asked == (
                    app,
                    seq![Effect::Run(AppCommand::NavigateTreeContextMenu(1))],
                )
            &&& (key != plain(KeyCode::Up) && key != plain(KeyCode::Char('k'))
                && key != plain(KeyCode::Down) && key != plain(KeyCode::Char('j'))
                && key != plain(KeyCode::Enter)) ==> asked == (
                    app,
                    seq![Effect::Run(AppCommand::CloseTreeContextMenu)],
                )
        }),
{
    keys_of_tree_context_menu(key);
}

/// In the list of places the arrows, `k` and `j` go through them, Enter goes to the one
/// that is picked, and any other key takes the list down.
pub proof fn list_of_places_keys(
    key: KeyEvent,
    app: TuiApp,
    now: Timestamp,
    selected_text: Option<String>,
)
    requires
        keyboard_owner(app) == InputScope::NavCandidates,
    ensures
        ({
            let asked = key_spec(key, app, now, selected_text);
            &&& (key == plain(KeyCode::Up) || key == plain(KeyCode::Char('k'))) ==> asked == (
                    app,
                    seq![Effect::NavMoveCandidates((-1) as i32)],
                )
            &&& (key == plain(KeyCode::Down) || key == plain(KeyCode::Char('j'))) ==> asked == (
                    app,
                    seq![Effect::NavMoveCandidates(1)],
                )
            &&& key == plain(KeyCode::Enter) ==> asked == (app, seq![Effect::NavPickCandidate])
            &&& (key != plain(KeyCode::Up) && key != plain(KeyCode::Char('k'))
                && key != plain(KeyCode::Down) && key != plain(KeyCode::Char('j'))
                && key != plain(KeyCode::Enter)) ==> asked == (
                    app,
                    seq![Effect::NavCloseCandidates],
                )
        }),
{
    keys_of_nav_candidates(key);
}

/// At a question the keys that it names say yes: the question goes down and what it asked
/// about is deleted. Escape, `n` and `c` say no, and only take it down. Control+C leaves
/// the program. A key that the question takes for yes is no no.
pub proof fn question_keys(
    key: KeyEvent,
    app: TuiApp,
    now: Timestamp,
    selected_text: Option<String>,
)
    requires
        keyboard_owner(app) == InputScope::ConfirmModal,
    ensures
        ({
            let asked = key_spec(key, app, now, selected_text);
            &&& key.code == KeyCode::Char('c') && key.modifiers.control ==> asked == (
                    app,
                    seq![Effect::Run(AppCommand::Quit)],
                )
            &&& key.code is Char && !key.modifiers.control && !key.modifiers.alt
                && app.engine.confirm->0.confirm_keys@.contains(key.code->Char_0) ==> asked == (
                    app,
                    seq![
                        Effect::Run(AppCommand::DismissConfirm),
                        Effect::Run(
                            AppCommand::ExecuteTreeDelete(app.engine.confirm->0.delete)), Effect::Then(Resume::RuntimeEvents,
                        ),
                    ],
                )
            &&& (key.code == KeyCode::Esc || key.code == KeyCode::Char('n')
                || key.code == KeyCode::Char('N') || key.code == KeyCode::Char('c')
                || key.code == KeyCode::Char('C')) && !key.modifiers.control
                && !key.modifiers.alt && !(key.code is Char && !key.modifiers.control
                && !key.modifiers.alt
                && app.engine.confirm->0.confirm_keys@.contains(key.code->Char_0)) ==> asked == (
                    app,
                    seq![Effect::Run(AppCommand::DismissConfirm)],
                )
            &&& !(key.code == KeyCode::Char('c') && key.modifiers.control)
                && !(key.code is Char && !key.modifiers.control && !key.modifiers.alt
                && app.engine.confirm->0.confirm_keys@.contains(key.code->Char_0))
                && !((key.code == KeyCode::Esc || key.code == KeyCode::Char('n')
                || key.code == KeyCode::Char('N') || key.code == KeyCode::Char('c')
                || key.code == KeyCode::Char('C')) && !key.modifiers.control
                && !key.modifiers.alt) ==> asked == (app, Seq::<Effect>::empty())
        }),
{
}

/// Where the name of a pasted file is taken, `r` replaces the old file, `s` skips the new
/// one, `k` keeps both, and `a` replaces this and every later one; Shift with `r` and `s`
/// answers for every later one too. Escape and `c` give the paste up, and Control+C
/// leaves the program.
pub proof fn name_conflict_keys(
    key: KeyEvent,
    app: TuiApp,
    now: Timestamp,
    selected_text: Option<String>,
)
    requires
        keyboard_owner(app) == InputScope::PasteConflict,
    ensures
        ({
            let asked = key_spec(key, app, now, selected_text);
            &&& (key.code == KeyCode::Esc || key.code == KeyCode::Char('C')) ==> asked == (
                    app,
                    seq![
                        Effect::Run(AppCommand::CancelPasteConflict),
                        Effect::Then(Resume::RuntimeEvents),
                    ],
                )
            &&& key.code == KeyCode::Char('c') && key.modifiers.control ==> asked == (
                    app,
                    seq![Effect::Run(AppCommand::Quit)],
                )
            &&& key.code == KeyCode::Char('c') && !key.modifiers.control ==> asked == (
                    app,
                    seq![
                        Effect::Run(AppCommand::CancelPasteConflict),
                        Effect::Then(Resume::RuntimeEvents),
                    ],
                )
            &&& (key.code == KeyCode::Char('r') || key.code == KeyCode::Char('R')) ==> asked == (
                    app,
                    seq![
                        Effect::Run(
                            AppCommand::ResolvePasteConflict {
                                resolution: Resolution::Replace,
                                apply_to_all: key.modifiers.shift,
                            },
                        ),
                        Effect::Then(Resume::RuntimeEvents),
                    ],
                )
            &&& (key.code == KeyCode::Char('s') || key.code == KeyCode::Char('S')) ==> asked == (
                    app,
                    seq![
                        Effect::Run(
                            AppCommand::ResolvePasteConflict {
                                resolution: Resolution::Skip,
                                apply_to_all: key.modifiers.shift,
                            },
                        ),
                        Effect::Then(Resume::RuntimeEvents),
                    ],
                )
            &&& (key.code == KeyCode::Char('k') || key.code == KeyCode::Char('K')) ==> asked == (
                    app,
                    seq![
                        Effect::Run(
                            AppCommand::ResolvePasteConflict {
                                resolution: Resolution::KeepBoth(app.engine.tree.keep_both_name),
                                apply_to_all: false,
                            },
                        ),
                        Effect::Then(Resume::RuntimeEvents),
                    ],
                )
            &&& (key.code == KeyCode::Char('a') || key.code == KeyCode::Char('A')) ==> asked == (
                    app,
                    seq![
                        Effect::Run(
                            AppCommand::ResolvePasteConflict {
                                resolution: Resolution::Replace,
                                apply_to_all: true,
                            },
                        ),
                        Effect::Then(Resume::RuntimeEvents),
                    ],
                )
        }),
{
}

/// While dropped files wait for a folder, Escape forgets them, and `q` and Control+C
/// leave the program; no other key does anything.
pub proof fn place_mode_keys(
    key: KeyEvent,
    app: TuiApp,
    now: Timestamp,
    selected_text: Option<String>,
)
    requires
        keyboard_owner(app) == InputScope::PlaceMode,
    ensures
        ({
            let asked = key_spec(key, app, now, selected_text);
            &&& key == plain(KeyCode::Esc) ==> asked == (
                    app,
                    seq![Effect::Run(AppCommand::ExitPlaceMode)],
                )
            &&& (key == plain(KeyCode::Char('q')) || key == ctrl(KeyCode::Char('c'))) ==> asked == (
                    app,
                    seq![Effect::Run(AppCommand::Quit)],
                )
            &&& (key != plain(KeyCode::Esc) && key != plain(KeyCode::Char('q'))
                && key != ctrl(KeyCode::Char('c'))) ==> asked == (app, Seq::<Effect>::empty())
        }),
{
    keys_of_place_mode(key);
}

/// During a drag in the tree, Escape gives it up and Control+C leaves the program; any
/// other key tells what is held with it.
pub proof fn tree_drag_keys(
    key: KeyEvent,
    app: TuiApp,
    now: Timestamp,
    selected_text: Option<String>,
)
    requires
        keyboard_owner(app) == InputScope::TreeDrag,
    ensures
        ({
            let asked = key_spec(key, app, now, selected_text);
            &&& key == plain(KeyCode::Esc) ==> asked == (
                    app,
                    seq![Effect::Run(AppCommand::CancelTreeDrag)],
                )
            &&& key == ctrl(KeyCode::Char('c')) ==> asked == (
                    app,
                    seq![Effect::Run(AppCommand::Quit)],
                )
            &&& (key != plain(KeyCode::Esc) && key != ctrl(KeyCode::Char('c'))) ==> asked == (
                    app,
                    seq![
                        Effect::Run(
                            AppCommand::UpdateTreeDragModifiers(
                                InputModifiers {
                                    alt: key.modifiers.alt,
                                    ctrl: key.modifiers.control,
                                    shift: key.modifiers.shift,
                                },
                            ),
                        ),
                    ],
                )
        }),
{
    keys_of_tree_drag(key);
}

/// What a picker is asked by a key: Escape closes it, Control+C leaves the program, Enter
/// takes the selected row, the arrows and Control with `k` and `j` move the selection, and
/// other keys edit the filter.
pub proof fn picker_keys(key: KeyEvent, scope: InputScope)
    requires
        scope == InputScope::QuickOpen || scope == InputScope::GlobalSearch || scope
            == InputScope::GraphBranchPicker || scope == InputScope::HostsPicker,
    ensures
        ({
            let asked = picker_input(scope, key);
            &&& key == plain(KeyCode::Esc) ==> asked == PickerInput::Cancel
            &&& key == ctrl(KeyCode::Char('c')) ==> asked == PickerInput::Quit
            &&& key == plain(KeyCode::Enter) ==> asked == PickerInput::Confirm
            &&& key == plain(KeyCode::Up) || key == ctrl(KeyCode::Char('k')) ==> asked
                == PickerInput::MoveSelection((-1) as i32)
            &&& key == plain(KeyCode::Down) || key == ctrl(KeyCode::Char('j')) || key == ctrl(
                KeyCode::Char('n'),
            ) ==> asked == PickerInput::MoveSelection(1)
            &&& key.code is Char && !key.modifiers.control && !key.modifiers.alt ==> asked
                == PickerInput::Edit(TextEditOp::InsertChar(key.code->Char_0))
            &&& key == plain(KeyCode::Backspace) ==> asked == PickerInput::Edit(
                TextEditOp::DeleteBackward,
            )
            &&& key == plain(KeyCode::Left) ==> asked == PickerInput::Edit(TextEditOp::MoveLeft)
            &&& key == plain(KeyCode::Right) ==> asked == PickerInput::Edit(TextEditOp::MoveRight)
        }),
{
    match scope {
        InputScope::QuickOpen => keys_of_quick_open(key),
        InputScope::GlobalSearch => keys_of_global_search(key),
        InputScope::GraphBranchPicker => keys_of_graph_branch_picker(key),
        InputScope::HostsPicker => keys_of_hosts_picker(key),
        _ => {},
    }
}

/// The branch picker hands every key on.
pub proof fn branch_picker_hands_its_keys_on(
    key: KeyEvent,
    app: TuiApp,
    now: Timestamp,
    selected_text: Option<String>,
)
    requires
        keyboard_owner(app) == InputScope::GraphBranchPicker,
    ensures
        ({
            let asked = key_spec(key, app, now, selected_text);
            &&& asked == (
                    app,
                    seq![
                        Effect::Run(
                            AppCommand::ApplyGraphBranchPickerInput {
                                input: picker_input(InputScope::GraphBranchPicker, key),
                                visible_rows: 0,
                            },
                        ),
                        Effect::Then(Resume::RuntimeEvents),
                    ],
                )
        }),
{
}

/// In the hosts picker Control+P goes from the list to the path and back. In the list
/// every other key is handed on. At the path Escape goes back, Enter connects, Control+C
/// closes the picker and leaves the program, and other keys edit the path.
pub proof fn hosts_picker_keys(
    key: KeyEvent,
    app: TuiApp,
    now: Timestamp,
    selected_text: Option<String>,
)
    requires
        keyboard_owner(app) == InputScope::HostsPicker,
    ensures
        ({
            let asked = key_spec(key, app, now, selected_text);
            &&& key == ctrl(KeyCode::Char('p'))
                && app.engine.hosts_picker_mode == InputMode::Search ==> asked == (
                    app,
                    seq![Effect::Run(AppCommand::EnterHostsPickerPathMode)],
                )
            &&& key != ctrl(KeyCode::Char('p'))
                && app.engine.hosts_picker_mode == InputMode::Search ==> asked == (
                    app,
                    seq![
                        Effect::Run(
                            AppCommand::ApplyHostsPickerSearchInput(
                                picker_input(InputScope::HostsPicker, key),
                            ),
                        ),
                        Effect::Then(Resume::RuntimeEvents),
                    ],
                )
            &&& (key == plain(KeyCode::Esc) || key == ctrl(KeyCode::Char('p')))
                && app.engine.hosts_picker_mode == InputMode::Path ==> asked == (
                    app,
                    seq![Effect::Run(AppCommand::ReturnHostsPickerToSearchMode)],
                )
            &&& key == ctrl(KeyCode::Char('c'))
                && app.engine.hosts_picker_mode == InputMode::Path ==> asked == (
                    app,
                    seq![
                        Effect::Run(AppCommand::CloseHostsPicker),
                        Effect::Run(AppCommand::Quit),
                    ],
                )
            &&& key == plain(KeyCode::Enter) && app.engine.hosts_picker_mode == InputMode::Path ==> asked == (
                    app,
                    seq![
                        Effect::Run(AppCommand::ConfirmHostsPicker),
                        Effect::Then(Resume::RuntimeEvents),
                    ],
                )
            &&& app.engine.hosts_picker_mode == InputMode::Path
                && key != plain(KeyCode::Esc) && key != ctrl(KeyCode::Char('p'))
                && key != ctrl(KeyCode::Char('c')) && key != plain(KeyCode::Enter)
                && single_line_op(key) is Some ==> asked == (
                    app,
                    seq![
                        Effect::Run(
                            AppCommand::EditHostsPickerPathInput(single_line_op(key)->0),
                        ),
                    ],
                )
            &&& app.engine.hosts_picker_mode == InputMode::Path
                && key != plain(KeyCode::Esc) && key != ctrl(KeyCode::Char('p'))
                && key != ctrl(KeyCode::Char('c')) && key != plain(KeyCode::Enter)
                && single_line_op(key) is None ==> asked == (app, Seq::<Effect>::empty())
        }),
{
    keys_of_hosts_picker(key);
}

/// In quick open the page keys move the selection by as many rows as are on screen, and
/// by one at least. Space waits for a second key while nothing is typed. Every other key
/// is handed on.
pub proof fn quick_open_keys(
    key: KeyEvent,
    app: TuiApp,
    now: Timestamp,
    selected_text: Option<String>,
)
    requires
        keyboard_owner(app) == InputScope::QuickOpen,
        app.quick_open_leader_at is None,
    ensures
        ({
            let asked = key_spec(key, app, now, selected_text);
            &&& key == plain(KeyCode::PageUp) && app.layout.quick_open_last_view_h > 0 ==> asked == (
                    app,
                    seq![
                        Effect::Run(
                            AppCommand::MoveQuickOpenSelection {
                                delta: (-(app.layout.quick_open_last_view_h as int)) as i32,
                                visible_rows: app.layout.quick_open_last_view_h as usize,
                            },
                        ),
                    ],
                )
            &&& key == plain(KeyCode::PageDown) && app.layout.quick_open_last_view_h > 0 ==> asked == (
                    app,
                    seq![
                        Effect::Run(
                            AppCommand::MoveQuickOpenSelection {
                                delta: app.layout.quick_open_last_view_h as i32,
                                visible_rows: app.layout.quick_open_last_view_h as usize,
                            },
                        ),
                    ],
                )
            &&& key == plain(KeyCode::PageUp) && app.layout.quick_open_last_view_h == 0 ==> asked == (
                    app,
                    seq![
                        Effect::Run(
                            AppCommand::MoveQuickOpenSelection {
                                delta: (-1) as i32,
                                visible_rows: 0,
                            },
                        ),
                    ],
                )
            &&& key == plain(KeyCode::PageDown) && app.layout.quick_open_last_view_h == 0 ==> asked == (
                    app,
                    seq![
                        Effect::Run(
                            AppCommand::MoveQuickOpenSelection { delta: 1, visible_rows: 0 },
                        ),
                    ],
                )
            &&& key == plain(KeyCode::Char(' ')) && app.engine.quick_open.query_is_empty ==> asked == (
                    TuiApp { quick_open_leader_at: Some(now), ..app },
                    Seq::<Effect>::empty(),
                )
            &&& (key != plain(KeyCode::PageUp) && key != plain(KeyCode::PageDown))
                && !(key == plain(KeyCode::Char(' ')) && app.engine.quick_open.query_is_empty) ==> asked == (
                    app,
                    seq![
                        Effect::Run(
                            AppCommand::ApplyQuickOpenPickerInput {
                                input: picker_input(InputScope::QuickOpen, key),
                                visible_rows: app.layout.quick_open_last_view_h as usize,
                            },
                        ),
                        Effect::Then(Resume::RuntimeEvents),
                    ],
                )
        }),
{
    keys_of_quick_open(key);
}

/// In the global search the page keys move the selection by as many rows as are on
/// screen, and by one at least; Enter with Control or Alt moves the search to its tab,
/// with the way back remembered. Space waits for a second key while nothing is typed.
/// Every other key is handed on.
pub proof fn global_search_keys(
    key: KeyEvent,
    app: TuiApp,
    now: Timestamp,
    selected_text: Option<String>,
)
    requires
        keyboard_owner(app) == InputScope::GlobalSearch,
        app.global_search_leader_at is None,
    ensures
        ({
            let asked = key_spec(key, app, now, selected_text);
            &&& key == plain(KeyCode::PageUp) && app.layout.global_search_last_view_h > 0 ==> asked == (
                    app,
                    seq![
                        Effect::Run(
                            AppCommand::MoveGlobalSearchSelection {
                                delta: (-(app.layout.global_search_last_view_h as int)) as i32,
                                visible_rows: app.layout.global_search_last_view_h as usize,
                            },
                        ),
                    ],
                )
            &&& key == plain(KeyCode::PageDown) && app.layout.global_search_last_view_h > 0 ==> asked == (
                    app,
                    seq![
                        Effect::Run(
                            AppCommand::MoveGlobalSearchSelection {
                                delta: app.layout.global_search_last_view_h as i32,
                                visible_rows: app.layout.global_search_last_view_h as usize,
                            },
                        ),
                    ],
                )
            &&& key == plain(KeyCode::PageUp) && app.layout.global_search_last_view_h == 0 ==> asked == (
                    app,
                    seq![
                        Effect::Run(
                            AppCommand::MoveGlobalSearchSelection {
                                delta: (-1) as i32,
                                visible_rows: 0,
                            },
                        ),
                    ],
                )
            &&& key == plain(KeyCode::PageDown) && app.layout.global_search_last_view_h == 0 ==> asked == (
                    app,
                    seq![
                        Effect::Run(
                            AppCommand::MoveGlobalSearchSelection { delta: 1, visible_rows: 0 },
                        ),
                    ],
                )
            &&& (key == alt(KeyCode::Enter) || key == ctrl(KeyCode::Enter)
                || key == ctrl_alt(KeyCode::Enter)) ==> asked == (
                    app,
                    seq![
                        Effect::PushLocationBeforeJump,
                        Effect::Run(AppCommand::PinGlobalSearchToTab),
                        Effect::Then(Resume::RuntimeEvents),
                        Effect::Run(AppCommand::SyncGlobalSearchPreviewToSelected),
                    ],
                )
            &&& key == plain(KeyCode::Char(' ')) && app.engine.global_search.query_is_empty ==> asked == (
                    TuiApp { global_search_leader_at: Some(now), ..app },
                    Seq::<Effect>::empty(),
                )
            &&& (key != plain(KeyCode::PageUp) && key != plain(KeyCode::PageDown)
                && key != alt(KeyCode::Enter) && key != ctrl(KeyCode::Enter)
                && key != ctrl_alt(KeyCode::Enter)) && !(key == plain(KeyCode::Char(' '))
                && app.engine.global_search.query_is_empty) ==> asked == (
                    app,
                    seq![
                        Effect::Run(
                            AppCommand::ApplyGlobalSearchPickerInput {
                                input: picker_input(InputScope::GlobalSearch, key),
                                now,
                                visible_rows: app.layout.global_search_last_view_h as usize,
                            },
                        ),
                        Effect::Then(Resume::RuntimeEvents),
                    ],
                )
        }),
{
    keys_of_global_search(key);
}

/// Soon after Space, `p` takes quick open down again.
pub proof fn quick_open_closes_on_its_chord(
    key: KeyEvent,
    app: TuiApp,
    now: Timestamp,
    selected_text: Option<String>,
)
    requires
        keyboard_owner(app) == InputScope::QuickOpen,
        app.quick_open_leader_at matches Some(at) && now.nanos < at.nanos + 800_000_000,
    ensures
        ({
            let asked = key_spec(key, app, now, selected_text);
            &&& (key == plain(KeyCode::Char('p')) || key == plain(KeyCode::Char('P'))
                || key == shift(KeyCode::Char('P'))) ==> asked == (
                    TuiApp { quick_open_leader_at: None, ..app },
                    seq![Effect::Run(AppCommand::CloseQuickOpen)],
                )
        }),
{
}

/// Soon after Space, `F` takes the global search down again.
pub proof fn global_search_closes_on_its_chord(
    key: KeyEvent,
    app: TuiApp,
    now: Timestamp,
    selected_text: Option<String>,
)
    requires
        keyboard_owner(app) == InputScope::GlobalSearch,
        app.global_search_leader_at matches Some(at) && now.nanos < at.nanos + 800_000_000,
    ensures
        ({
            let asked = key_spec(key, app, now, selected_text);
            &&& (key == plain(KeyCode::Char('F')) || key == shift(KeyCode::Char('F'))) ==> asked == (
                    TuiApp { global_search_leader_at: None, ..app },
                    seq![Effect::Run(AppCommand::CloseGlobalSearch)],
                )
        }),
{
}

/// In the find widget Enter and Down go to the next match, Shift+Enter and Up to the one
/// before; Alt with `c`, `w` and `r` switches between looking at case or not, at whole
/// words or not, and for patterns or not; Escape and Control+C take the widget down.
/// Space waits for a second key while nothing is typed, and other keys edit the query.
pub proof fn find_widget_keys(
    key: KeyEvent,
    app: TuiApp,
    now: Timestamp,
    selected_text: Option<String>,
)
    requires
        keyboard_owner(app) == InputScope::FindWidget,
        app.find_widget_ui.space_leader_at is None,
    ensures
        ({
            let asked = key_spec(key, app, now, selected_text);
            &&& (key == plain(KeyCode::Esc) || key == ctrl(KeyCode::Char('c'))) ==> asked == (
                    TuiApp {
                        find_widget_ui: FindWidgetUiState { last_widget_rect: None, space_leader_at: None },
                        ..app
                    },
                    seq![Effect::Run(AppCommand::CloseFindWidget { dark: app.theme.is_dark })],
                )
            &&& key == plain(KeyCode::Enter) && app.engine.find_widget.has_matches ==> asked == (
                    app,
                    seq![
                        Effect::Run(
                            AppCommand::StepFindWidget {
                                reverse: false,
                                viewport: app.viewport(),
                            },
                        ),
                    ],
                )
            &&& key == shift(KeyCode::Enter) && app.engine.find_widget.has_matches ==> asked == (
                    app,
                    seq![
                        Effect::Run(
                            AppCommand::StepFindWidget {
                                reverse: true,
                                viewport: app.viewport(),
                            },
                        ),
                    ],
                )
            &&& (key == plain(KeyCode::Enter) || key == shift(KeyCode::Enter))
                && !app.engine.find_widget.has_matches ==> asked == (app, Seq::<Effect>::empty())
            &&& key == plain(KeyCode::Up) ==> asked == (
                    app,
                    seq![
                        Effect::Run(
                            AppCommand::StepFindWidget {
                                reverse: true,
                                viewport: app.viewport(),
                            },
                        ),
                    ],
                )
            &&& key == plain(KeyCode::Down) ==> asked == (
                    app,
                    seq![
                        Effect::Run(
                            AppCommand::StepFindWidget {
                                reverse: false,
                                viewport: app.viewport(),
                            },
                        ),
                    ],
                )
            &&& (key == alt(KeyCode::Char('c')) || key == alt_shift(KeyCode::Char('C')))
                && app.engine.find_widget.active ==> asked == (
                    app,
                    seq![
                        Effect::Run(
                            AppCommand::ToggleFindWidgetOption(FindWidgetToggle::MatchCase),
                        ),
                        Effect::Then(Resume::RuntimeEvents),
                    ],
                )
            &&& (key == alt(KeyCode::Char('w')) || key == alt_shift(KeyCode::Char('W')))
                && app.engine.find_widget.active ==> asked == (
                    app,
                    seq![
                        Effect::Run(
                            AppCommand::ToggleFindWidgetOption(FindWidgetToggle::WholeWord),
                        ),
                        Effect::Then(Resume::RuntimeEvents),
                    ],
                )
            &&& (key == alt(KeyCode::Char('r')) || key == alt_shift(KeyCode::Char('R')))
                && app.engine.find_widget.active ==> asked == (
                    app,
                    seq![
                        Effect::Run(AppCommand::ToggleFindWidgetOption(FindWidgetToggle::Regex)),
                        Effect::Then(Resume::RuntimeEvents),
                    ],
                )
            &&& key == plain(KeyCode::Char(' ')) && app.engine.find_widget.query_is_empty ==> asked == (
                    TuiApp {
                        find_widget_ui: FindWidgetUiState { space_leader_at: Some(now), ..app.find_widget_ui },
                        ..app
                    },
                    Seq::<Effect>::empty(),
                )
            &&& (key != plain(KeyCode::Esc) && key != ctrl(KeyCode::Char('c'))
                && key != plain(KeyCode::Enter) && key != shift(KeyCode::Enter)
                && key != plain(KeyCode::Up) && key != plain(KeyCode::Down)
                && key != alt(KeyCode::Char('c')) && key != alt_shift(KeyCode::Char('C'))
                && key != alt(KeyCode::Char('w')) && key != alt_shift(KeyCode::Char('W'))
                && key != alt(KeyCode::Char('r')) && key != alt_shift(KeyCode::Char('R')))
                && !(key == plain(KeyCode::Char(' ')) && app.engine.find_widget.query_is_empty)
                && single_line_op(key) is Some ==> asked == (
                    app,
                    seq![
                        Effect::Run(
                            AppCommand::EditFindWidgetInput(single_line_op(key)->0)), Effect::Then(Resume::RuntimeEvents,
                        ),
                    ],
                )
            &&& (key != plain(KeyCode::Esc) && key != ctrl(KeyCode::Char('c'))
                && key != plain(KeyCode::Enter) && key != shift(KeyCode::Enter)
                && key != plain(KeyCode::Up) && key != plain(KeyCode::Down)
                && key != alt(KeyCode::Char('c')) && key != alt_shift(KeyCode::Char('C'))
                && key != alt(KeyCode::Char('w')) && key != alt_shift(KeyCode::Char('W'))
                && key != alt(KeyCode::Char('r')) && key != alt_shift(KeyCode::Char('R')))
                && single_line_op(key) is None ==> asked == (app, Seq::<Effect>::empty())
        }),
{
    keys_of_find_widget(key);
}

/// Soon after Space, `f` takes the find widget down again.
pub proof fn find_widget_closes_on_its_chord(
    key: KeyEvent,
    app: TuiApp,
    now: Timestamp,
    selected_text: Option<String>,
)
    requires
        keyboard_owner(app) == InputScope::FindWidget,
        app.find_widget_ui.space_leader_at matches Some(at) && now.nanos < at.nanos + 800_000_000,
    ensures
        ({
            let asked = key_spec(key, app, now, selected_text);
            &&& key == plain(KeyCode::Char('f')) ==> asked == (
                    TuiApp {
                        find_widget_ui: FindWidgetUiState { last_widget_rect: None, space_leader_at: None },
                        ..app
                    },
                    seq![Effect::Run(AppCommand::CloseFindWidget { dark: app.theme.is_dark })],
                )
        }),
{
}

/// On the settings page the arrows, `k` and `j` go through the rows, the page keys, Home
/// and End go to the first row and the last, Escape closes the page, and `q` and
/// Control+C leave the program.
pub proof fn settings_keys(
    key: KeyEvent,
    app: TuiApp,
    now: Timestamp,
    selected_text: Option<String>,
)
    requires
        keyboard_owner(app) == InputScope::Settings,
        !app.engine.settings.editing_editor_command,
    ensures
        ({
            let asked = key_spec(key, app, now, selected_text);
            &&& key == plain(KeyCode::Esc) ==> asked == (
                    app,
                    seq![
                        Effect::Run(AppCommand::CloseSettings),
                        Effect::Run(AppCommand::CancelSettingsEditorCommandEdit),
                    ],
                )
            &&& (key == plain(KeyCode::Char('q')) || key == ctrl(KeyCode::Char('c'))) ==> asked == (
                    app,
                    seq![Effect::Run(AppCommand::Quit)],
                )
            &&& (key == plain(KeyCode::Up) || key == plain(KeyCode::Char('k'))
                || key == ctrl(KeyCode::Char('p'))) ==> asked == (
                    app,
                    seq![Effect::Run(AppCommand::MoveSettingsSelection((-1) as i32))],
                )
            &&& (key == plain(KeyCode::Down) || key == plain(KeyCode::Char('j'))
                || key == ctrl(KeyCode::Char('n'))) ==> asked == (
                    app,
                    seq![Effect::Run(AppCommand::MoveSettingsSelection(1))],
                )
            &&& (key == plain(KeyCode::PageUp) || key == plain(KeyCode::Home)) ==> asked == (
                    app,
                    seq![Effect::Run(AppCommand::SelectSettingsRow(0))],
                )
            &&& (key == plain(KeyCode::PageDown) || key == plain(KeyCode::End))
                && app.engine.settings.row_count > 0 ==> asked == (
                    app,
                    seq![
                        Effect::Run(
                            AppCommand::SelectSettingsRow(
                                (app.engine.settings.row_count - 1) as usize,
                            ),
                        ),
                    ],
                )
        }),
{
    keys_of_settings(key);
}

/// On the settings page Enter and Space change the selected setting and save it: what
/// shows it anew drops the text that is selected in it. The editor command is typed, and
/// a language server is put in place.
pub proof fn settings_are_changed(
    key: KeyEvent,
    app: TuiApp,
    now: Timestamp,
    selected_text: Option<String>,
)
    requires
        keyboard_owner(app) == InputScope::Settings,
        !app.engine.settings.editing_editor_command,
    ensures
        ({
            let asked = key_spec(key, app, now, selected_text);
            &&& (key == plain(KeyCode::Enter) || key == plain(KeyCode::Char(' ')))
                && app.engine.settings.selected == SettingItem::EditorCommand ==> asked == (
                    app,
                    seq![Effect::Run(AppCommand::BeginSettingsEditorCommandEdit)],
                )
            &&& (key == plain(KeyCode::Enter) || key == plain(KeyCode::Char(' ')))
                && app.engine.settings.selected == SettingItem::DiffLayout ==> asked == (
                    TuiApp { diff_selection: None, diff_click_state: None, ..app },
                    seq![
                        Effect::Run(AppCommand::ToggleDiffLayout),
                        Effect::SaveDiffPrefs,
                        Effect::RefreshPrefCache,
                    ],
                )
            &&& (key == plain(KeyCode::Enter) || key == plain(KeyCode::Char(' ')))
                && app.engine.settings.selected == SettingItem::DiffMode ==> asked == (
                    TuiApp { diff_selection: None, diff_click_state: None, ..app },
                    seq![
                        Effect::Run(AppCommand::ToggleDiffMode { dark: app.theme.is_dark }),
                        Effect::SaveDiffPrefs,
                        Effect::RefreshPrefCache,
                    ],
                )
            &&& (key == plain(KeyCode::Enter) || key == plain(KeyCode::Char(' ')))
                && app.engine.settings.selected == SettingItem::StatusTreeMode ==> asked == (
                    app,
                    seq![
                        Effect::Run(AppCommand::ToggleStatusTreeMode),
                        Effect::SaveStatusTreeMode,
                        Effect::RefreshPrefCache,
                    ],
                )
            &&& (key == plain(KeyCode::Enter) || key == plain(KeyCode::Char(' ')))
                && app.engine.settings.selected == SettingItem::CommitDiffLayout ==> asked == (
                    TuiApp {
                        commit_detail_selection: None,
                        commit_detail_click_state: None,
                        ..app
                    },
                    seq![
                        Effect::Run(AppCommand::ToggleCommitDiffLayout),
                        Effect::SaveCommitDiffLayout,
                        Effect::RefreshPrefCache,
                    ],
                )
            &&& (key == plain(KeyCode::Enter) || key == plain(KeyCode::Char(' ')))
                && app.engine.settings.selected == SettingItem::CommitDiffMode ==> asked == (
                    TuiApp {
                        commit_detail_selection: None,
                        commit_detail_click_state: None,
                        ..app
                    },
                    seq![
                        Effect::Run(AppCommand::ToggleCommitDiffMode),
                        Effect::SaveCommitDiffMode,
                        Effect::Run(
                            AppCommand::ReloadCommitFileDiff {
                                dark: app.theme.is_dark,
                                uses_three_col: app.graph_uses_three_col(),
                            },
                        ),
                        Effect::Then(Resume::RuntimeEvents),
                        Effect::RefreshPrefCache,
                    ],
                )
            &&& (key == plain(KeyCode::Enter) || key == plain(KeyCode::Char(' ')))
                && app.engine.settings.selected == SettingItem::CommitFilesTreeMode ==> asked == (
                    TuiApp {
                        commit_detail_selection: None,
                        commit_detail_click_state: None,
                        ..app
                    },
                    seq![
                        Effect::Run(AppCommand::ToggleCommitFilesTreeMode),
                        Effect::SaveCommitFilesTreeMode,
                        Effect::RefreshPrefCache,
                    ],
                )
            &&& (key == plain(KeyCode::Enter) || key == plain(KeyCode::Char(' ')))
                && app.engine.settings.selected is Lsp ==> asked == (
                    app,
                    seq![Effect::ActivateLspRow(app.engine.settings.selected->Lsp_0)],
                )
        }),
{
    keys_of_settings(key);
}

/// On the settings page Enter and Space go from the theme of the terminal to the dark
/// one, from that to the light one, and from that back. The dark and the light theme are
/// put on at once; the terminal's own waits for the next start, and a notice says so.
pub proof fn themes_go_round(
    key: KeyEvent,
    app: TuiApp,
    now: Timestamp,
    selected_text: Option<String>,
)
    requires
        keyboard_owner(app) == InputScope::Settings,
        !app.engine.settings.editing_editor_command,
    ensures
        ({
            let asked = key_spec(key, app, now, selected_text);
            &&& (key == plain(KeyCode::Enter) || key == plain(KeyCode::Char(' ')))
                && app.engine.settings.selected == SettingItem::Theme
                && app.engine.settings.theme_pref == ThemePref::Auto ==> asked == (
                    TuiApp { theme: Theme { is_dark: true }, ..app },
                    seq![Effect::SaveThemePref(ThemePref::Dark), Effect::RefreshPrefCache],
                )
            &&& (key == plain(KeyCode::Enter) || key == plain(KeyCode::Char(' ')))
                && app.engine.settings.selected == SettingItem::Theme
                && app.engine.settings.theme_pref == ThemePref::Dark ==> asked == (
                    TuiApp { theme: Theme { is_dark: false }, ..app },
                    seq![Effect::SaveThemePref(ThemePref::Light), Effect::RefreshPrefCache],
                )
            &&& (key == plain(KeyCode::Enter) || key == plain(KeyCode::Char(' ')))
                && app.engine.settings.selected == SettingItem::Theme
                && app.engine.settings.theme_pref == ThemePref::Light ==> asked == (
                    app,
                    seq![
                        Effect::SaveThemePref(ThemePref::Auto),
                        Effect::Run(
                            AppCommand::PushToast(
                                Toast {
                                    level: ToastLevel::Info,
                                    text: ToastText::AutoThemeOnNextLaunch,
                                },
                            ),
                        ),
                        Effect::RefreshPrefCache,
                    ],
                )
        }),
{
    keys_of_settings(key);
}

/// While the editor command is typed, Enter takes it over, Escape forgets it, and other
/// keys edit it.
pub proof fn editor_command_keys(
    key: KeyEvent,
    app: TuiApp,
    now: Timestamp,
    selected_text: Option<String>,
)
    requires
        keyboard_owner(app) == InputScope::Settings,
        app.engine.settings.editing_editor_command,
    ensures
        ({
            let asked = key_spec(key, app, now, selected_text);
            &&& key == plain(KeyCode::Esc) ==> asked == (
                    app,
                    seq![Effect::Run(AppCommand::CancelSettingsEditorCommandEdit)],
                )
            &&& key == plain(KeyCode::Enter) ==> asked == (app, seq![Effect::CommitEditorCommand])
            &&& single_line_op(key) is Some && key != plain(KeyCode::Esc)
                && key != plain(KeyCode::Enter) ==> asked == (
                    app,
                    seq![
                        Effect::Run(
                            AppCommand::EditSettingsEditorCommand(single_line_op(key)->0),
                        ),
                    ],
                )
            &&& single_line_op(key) is None && key != plain(KeyCode::Esc)
                && key != plain(KeyCode::Enter) ==> asked == (app, Seq::<Effect>::empty())
        }),
{
    keys_of_settings(key);
}

/// While the list of files lies over a preview that has the whole screen, the keys that
/// move go through the list, Enter and Space show the file, and Escape and `o` take the
/// list down.
pub proof fn files_of_the_preview_keys(
    key: KeyEvent,
    app: TuiApp,
    now: Timestamp,
    selected_text: Option<String>,
)
    requires
        keyboard_owner(app) == InputScope::FocusedPreview,
        app.engine.focused_preview_files_open,
    ensures
        ({
            let asked = key_spec(key, app, now, selected_text);
            &&& key.code == KeyCode::Esc ==> asked == (
                    app,
                    seq![Effect::Run(AppCommand::CloseFocusedPreviewFiles)],
                )
            &&& (key.code == KeyCode::Up || key.code == KeyCode::Char('k'))
                && !key.modifiers.control ==> asked == (
                    app,
                    seq![Effect::Run(AppCommand::MoveFocusedPreviewFilesSelection((-1) as i32))],
                )
            &&& (key.code == KeyCode::Down || key.code == KeyCode::Char('j'))
                && !key.modifiers.control ==> asked == (
                    app,
                    seq![Effect::Run(AppCommand::MoveFocusedPreviewFilesSelection(1))],
                )
            &&& (key.code == KeyCode::PageUp || key.code == KeyCode::Home) ==> asked == (
                    app,
                    seq![Effect::Run(AppCommand::SetFocusedPreviewFilesSelection(0))],
                )
            &&& (key.code == KeyCode::PageDown || key.code == KeyCode::End)
                && app.engine.focused_preview_file_count > 0 ==> asked == (
                    app,
                    seq![
                        Effect::Run(
                            AppCommand::SetFocusedPreviewFilesSelection(
                                (app.engine.focused_preview_file_count - 1) as usize,
                            ),
                        ),
                    ],
                )
            &&& key.code == KeyCode::Char('c') && key.modifiers.control ==> asked == (
                    app,
                    seq![Effect::Run(AppCommand::Quit)],
                )
            &&& (key.code == KeyCode::Char('o') || key.code == KeyCode::Char('O'))
                && !key.modifiers.control ==> asked == (
                    app,
                    seq![Effect::Run(AppCommand::CloseFocusedPreviewFiles)],
                )
            &&& (key.code == KeyCode::Enter || key.code == KeyCode::Char(' ')) ==> asked == (
                    app,
                    seq![
                        Effect::Run(
                            AppCommand::ConfirmFocusedPreviewFilesSelection {
                                dark: app.theme.is_dark,
                                uses_three_col: app.graph_uses_three_col(),
                            },
                        ),
                        Effect::Then(Resume::RuntimeEvents),
                    ],
                )
        }),
{
}

/// While a preview has the whole screen and no chord waits, Escape gives the screen back,
/// `q` and Control+C leave the program, and `o` lists the changed files where there are
/// any to list. Keys that would change a file or the repository do nothing.
pub proof fn whole_screen_preview_keys(
    key: KeyEvent,
    app: TuiApp,
    now: Timestamp,
    selected_text: Option<String>,
)
    requires
        keyboard_owner(app) == InputScope::FocusedPreview,
        !app.engine.focused_preview_files_open,
        app.space_leader_at is None,
        app.g_pending_at is None,
    ensures
        ({
            let asked = key_spec(key, app, now, selected_text);
            &&& key == plain(KeyCode::Esc) ==> asked == (
                    app,
                    seq![Effect::Run(AppCommand::CloseFocusedPreview)],
                )
            &&& (key == plain(KeyCode::Char('q')) || key == ctrl(KeyCode::Char('c'))) ==> asked == (
                    app,
                    seq![Effect::Run(AppCommand::Quit)],
                )
            &&& (key.code == KeyCode::Char('o') || key.code == KeyCode::Char('O'))
                && (!key.modifiers.control && (app.engine.active_tab == Tab::Git
                || app.graph_uses_three_col())) ==> asked == (
                    app,
                    seq![Effect::Run(AppCommand::ToggleFocusedPreviewFiles)],
                )
            &&& (key.code == KeyCode::Char('s') || key.code == KeyCode::Char('u')
                || key.code == KeyCode::Char('d') || key.code == KeyCode::Char('t')
                || key.code == KeyCode::Char('r') || key.code == KeyCode::Char('e')
                || key.code == KeyCode::Delete || key.code == KeyCode::Backspace
                || key.code == KeyCode::Enter || key.code == KeyCode::F(2)) ==> asked == (
                    app,
                    Seq::<Effect>::empty(),
                )
        }),
{
    keys_of_focused_preview(key);
    assert((TuiApp { space_leader_at: None, g_pending_at: None, ..app }) == app);
}

/// While a commit message is typed, Control+Enter commits, Escape leaves the box,
/// Control+C leaves the program, and the keys that edit a text of many lines edit the
/// message.
pub proof fn commit_box_keys(
    key: KeyEvent,
    app: TuiApp,
    now: Timestamp,
    selected_text: Option<String>,
)
    requires
        keyboard_owner(app) == InputScope::CommitEditor,
        app.engine.active_tab == Tab::Git,
        app.engine.active_panel == Panel::Files,
        app.engine.commit_editing,
        !app.engine.commit_message_is_empty,
        app.space_leader_at is None,
        app.g_pending_at is None,
    ensures
        ({
            let asked = key_spec(key, app, now, selected_text);
            &&& key == plain(KeyCode::Esc) && !app.engine.vim_search.has_matches ==> asked == (
                    app,
                    seq![Effect::Run(AppCommand::SetCommitEditing(false))],
                )
            &&& key == ctrl(KeyCode::Char('c')) ==> asked == (
                    app,
                    seq![Effect::Run(AppCommand::Quit)],
                )
            &&& (key == ctrl(KeyCode::Enter) || key == ctrl_shift(KeyCode::Enter)) ==> asked == (
                    app,
                    seq![Effect::Run(AppCommand::RunCommit)],
                )
            &&& (key != plain(KeyCode::Esc) && key != ctrl(KeyCode::Char('c'))
                && key != ctrl(KeyCode::Enter) && key != ctrl_shift(KeyCode::Enter))
                && multi_line_op(key) is Some && key.code != KeyCode::Esc ==> asked == (
                    app,
                    seq![
                        Effect::Run(
                            AppCommand::EditCommitMessage(
                                multi_line_op(key)->0)), Effect::Then(Resume::CommitKey(key,
                            ),
                        ),
                    ],
                )
        }),
{
    keys_of_commit_editor(key);
    assert((TuiApp { g_pending_at: None, ..app }) == app);
}

/// In the fields of the Search tab the arrows go through the hits, Tab goes from field to
/// field, Escape goes to the list, Control+C leaves the program, and Enter goes to the
/// hit from the query, and replaces from the replacement. Other keys edit the field that
/// has the focus.
pub proof fn search_field_keys(
    key: KeyEvent,
    app: TuiApp,
    now: Timestamp,
    selected_text: Option<String>,
)
    requires
        keyboard_owner(app) == InputScope::SearchInput,
        app.engine.active_tab == Tab::Search,
        app.engine.active_panel == Panel::Files,
        !app.engine.global_search.query_is_empty,
        app.space_leader_at is None,
        app.g_pending_at is None,
        !app.engine.vim_search.has_matches,
    ensures
        ({
            let asked = key_spec(key, app, now, selected_text);
            &&& key == plain(KeyCode::Esc)
                && (app.engine.global_search.focus == SearchPanelFocus::FindInput
                || app.engine.global_search.focus == SearchPanelFocus::ReplaceInput) ==> asked == (
                    app,
                    seq![Effect::Run(AppCommand::FocusGlobalSearchList)],
                )
            &&& key == ctrl(KeyCode::Char('c')) ==> asked == (
                    app,
                    seq![Effect::Run(AppCommand::Quit)],
                )
            &&& (key == plain(KeyCode::Up) || key == ctrl(KeyCode::Char('k'))
                || key == ctrl(KeyCode::Char('p')))
                && (app.engine.global_search.focus == SearchPanelFocus::FindInput
                || app.engine.global_search.focus == SearchPanelFocus::ReplaceInput) ==> asked == (
                    app,
                    seq![
                        Effect::Run(
                            AppCommand::MoveGlobalSearchSelection {
                                delta: (-1) as i32,
                                visible_rows: app.layout.global_search_last_view_h as usize,
                            },
                        ),
                        Effect::Run(AppCommand::ScheduleGlobalSearchPreviewSync { now }),
                    ],
                )
            &&& (key == plain(KeyCode::Down) || key == ctrl(KeyCode::Char('j'))
                || key == ctrl(KeyCode::Char('n')))
                && (app.engine.global_search.focus == SearchPanelFocus::FindInput
                || app.engine.global_search.focus == SearchPanelFocus::ReplaceInput) ==> asked == (
                    app,
                    seq![
                        Effect::Run(
                            AppCommand::MoveGlobalSearchSelection {
                                delta: 1,
                                visible_rows: app.layout.global_search_last_view_h as usize,
                            },
                        ),
                        Effect::Run(AppCommand::ScheduleGlobalSearchPreviewSync { now }),
                    ],
                )
            &&& key == plain(KeyCode::Tab)
                && (app.engine.global_search.focus == SearchPanelFocus::FindInput
                || app.engine.global_search.focus == SearchPanelFocus::ReplaceInput) ==> asked == (
                    app,
                    seq![Effect::Run(AppCommand::CycleGlobalSearchFocusForward)],
                )
            &&& key.code == KeyCode::BackTab
                && (app.engine.global_search.focus == SearchPanelFocus::FindInput
                || app.engine.global_search.focus == SearchPanelFocus::ReplaceInput) ==> asked == (
                    app,
                    seq![Effect::Run(AppCommand::CycleGlobalSearchFocusBackward)],
                )
            &&& key == plain(KeyCode::Enter)
                && app.engine.global_search.focus == SearchPanelFocus::FindInput
                && app.engine.global_search.has_selected_hit ==> asked == (
                    app,
                    seq![
                        Effect::PushLocationBeforeJump,
                        Effect::Run(AppCommand::AcceptGlobalSearchHit),
                        Effect::Then(Resume::RuntimeEvents),
                    ],
                )
            &&& key == plain(KeyCode::Enter)
                && app.engine.global_search.focus == SearchPanelFocus::FindInput
                && !app.engine.global_search.has_selected_hit ==> asked == (
                    app,
                    seq![Effect::Run(AppCommand::CloseGlobalSearch)],
                )
            &&& (key == ctrl(KeyCode::Enter) || key == alt(KeyCode::Enter))
                && app.engine.global_search.focus == SearchPanelFocus::FindInput
                && app.engine.global_search.replace_open ==> asked == (
                    app,
                    seq![Effect::Run(AppCommand::CommitReplaceInFiles)],
                )
            &&& (key == plain(KeyCode::Enter) || key == ctrl(KeyCode::Enter)
                || key == alt(KeyCode::Enter) || key == ctrl_alt(KeyCode::Enter))
                && app.engine.global_search.focus == SearchPanelFocus::ReplaceInput ==> asked == (
                    app,
                    seq![Effect::Run(AppCommand::CommitReplaceInFiles)],
                )
            &&& (key != plain(KeyCode::Esc) && key != ctrl(KeyCode::Char('c'))
                && key != plain(KeyCode::Up) && key != ctrl(KeyCode::Char('k'))
                && key != ctrl(KeyCode::Char('p')) && key != plain(KeyCode::Down)
                && key != ctrl(KeyCode::Char('j')) && key != ctrl(KeyCode::Char('n'))
                && key != plain(KeyCode::PageUp) && key != plain(KeyCode::PageDown)
                && key != plain(KeyCode::Enter) && key != ctrl(KeyCode::Enter)
                && key != alt(KeyCode::Enter) && key != ctrl_alt(KeyCode::Enter)
                && key != plain(KeyCode::Tab) && key.code != KeyCode::BackTab)
                && app.engine.global_search.focus == SearchPanelFocus::FindInput
                && single_line_op(key) is Some ==> asked == (
                    app,
                    seq![
                        Effect::Run(
                            AppCommand::EditGlobalSearchFindInput { op: single_line_op(key)->0,
                            now },
                        ),
                    ],
                )
            &&& (key != plain(KeyCode::Esc) && key != ctrl(KeyCode::Char('c'))
                && key != plain(KeyCode::Up) && key != ctrl(KeyCode::Char('k'))
                && key != ctrl(KeyCode::Char('p')) && key != plain(KeyCode::Down)
                && key != ctrl(KeyCode::Char('j')) && key != ctrl(KeyCode::Char('n'))
                && key != plain(KeyCode::PageUp) && key != plain(KeyCode::PageDown)
                && key != plain(KeyCode::Enter) && key != ctrl(KeyCode::Enter)
                && key != alt(KeyCode::Enter) && key != ctrl_alt(KeyCode::Enter)
                && key != plain(KeyCode::Tab) && key.code != KeyCode::BackTab)
                && app.engine.global_search.focus == SearchPanelFocus::ReplaceInput
                && single_line_op(key) is Some ==> asked == (
                    app,
                    seq![
                        Effect::Run(
                            AppCommand::EditGlobalSearchReplaceInput(single_line_op(key)->0),
                        ),
                    ],
                )
        }),
{
    keys_of_search_input(key);
    assert((TuiApp { g_pending_at: None, ..app }) == app);
}

/// What a key does to a line of text: plain characters go in, Backspace and Delete take a
/// character out, or a word with Control or Alt; the arrows go one character, or a word; Home,
/// End and Control with `a` and `e` go to the ends; Control+U clears the line.
pub proof fn editing_keys(key: KeyEvent)
    ensures
        ({
            let asked = single_line_op(key);
            let word = key.modifiers.control || key.modifiers.alt;
            &&& key.code is Char && !key.modifiers.control && !key.modifiers.alt ==> asked == Some(
                TextEditOp::InsertChar(key.code->Char_0),
            )
            &&& key.code == KeyCode::Left && !word ==> asked == Some(TextEditOp::MoveLeft)
            &&& key.code == KeyCode::Left && word ==> asked == Some(TextEditOp::MoveWordLeft)
            &&& key.code == KeyCode::Right && !word ==> asked == Some(TextEditOp::MoveRight)
            &&& key.code == KeyCode::Right && word ==> asked == Some(TextEditOp::MoveWordRight)
            &&& key.code == KeyCode::Home ==> asked == Some(TextEditOp::MoveStart)
            &&& key.code == KeyCode::End ==> asked == Some(TextEditOp::MoveEnd)
            &&& key.code == KeyCode::Backspace && !word ==> asked == Some(
                TextEditOp::DeleteBackward,
            )
            &&& key.code == KeyCode::Backspace && word ==> asked == Some(
                TextEditOp::DeleteWordBackward,
            )
            &&& key.code == KeyCode::Delete && !word ==> asked == Some(TextEditOp::DeleteForward)
            &&& key.code == KeyCode::Delete && word ==> asked == Some(
                TextEditOp::DeleteWordForward,
            )
            &&& key == ctrl(KeyCode::Char('a')) ==> asked == Some(TextEditOp::MoveStart)
            &&& key == ctrl(KeyCode::Char('e')) ==> asked == Some(TextEditOp::MoveEnd)
            &&& key == alt(KeyCode::Char('b')) ==> asked == Some(TextEditOp::MoveWordLeft)
            &&& key == alt(KeyCode::Char('f')) ==> asked == Some(TextEditOp::MoveWordRight)
            &&& key == ctrl(KeyCode::Char('w')) ==> asked == Some(TextEditOp::DeleteWordBackward)
            &&& key == ctrl(KeyCode::Char('u')) ==> asked == Some(TextEditOp::Clear)
            &&& key == alt(KeyCode::Char('d')) ==> asked == Some(TextEditOp::DeleteWordForward)
            &&& key.code == KeyCode::Up || key.code == KeyCode::Down || key.code == KeyCode::Enter
                || key.code == KeyCode::Tab || key.code == KeyCode::Esc ==> asked is None
        }),
{
}

/// What a key does to a text of many lines: without Control, Enter begins a line, the arrows
/// go up and down, and Home and End go to the ends of the line; the rest is as in a single
/// line.
pub proof fn editing_keys_of_many_lines(key: KeyEvent)
    ensures
        ({
            let asked = multi_line_op(key);
            let ctrl = key.modifiers.control;
            &&& key.code == KeyCode::Enter && !ctrl ==> asked == Some(TextEditOp::InsertNewline)
            &&& key.code == KeyCode::Up && !ctrl ==> asked == Some(TextEditOp::MoveLineUp)
            &&& key.code == KeyCode::Down && !ctrl ==> asked == Some(TextEditOp::MoveLineDown)
            &&& key.code == KeyCode::Home && !ctrl ==> asked == Some(TextEditOp::MoveLineStart)
            &&& key.code == KeyCode::End && !ctrl ==> asked == Some(TextEditOp::MoveLineEnd)
            &&& key.code is Char && key.code != KeyCode::Char('\r') ==> asked == single_line_op(key)
            &&& key.code == KeyCode::Left || key.code == KeyCode::Right || key.code
                == KeyCode::Backspace || key.code == KeyCode::Delete ==> asked == single_line_op(
                key,
            )
            &&& ctrl && (key.code == KeyCode::Home || key.code == KeyCode::End) ==> asked
                == single_line_op(key)
        }),
{
}

/// While a preview has the whole screen, the keys that look around are left to its tab: the
/// arrows and page keys, those that search, pan, turn pages and jump, and their forms with
/// Control. Any other key is swallowed, but for those that leave, quit or list the files.
pub proof fn keys_that_look_around_are_left_to_the_tab(key: KeyEvent, app: TuiApp, now: Timestamp)
    requires
        !app.engine.focused_preview_files_open,
        app.space_leader_at is None,
        app.g_pending_at is None,
    ensures
        ({
            let held = key.modifiers.control || key.modifiers.alt;
            let arrow = key.code == KeyCode::Up || key.code == KeyCode::Down || key.code
                == KeyCode::Left || key.code == KeyCode::Right || key.code == KeyCode::PageUp
                || key.code == KeyCode::PageDown || key.code == KeyCode::Home || key.code
                == KeyCode::End;
            let letter = key.code matches KeyCode::Char(c) && seq![
                ' ',
                'j',
                'k',
                'h',
                '?',
                '/',
                'n',
                'N',
                'm',
                'f',
                '[',
                ']',
                'g',
                'G',
            ].contains(c);
            let control_letter = key.code matches KeyCode::Char(c) && seq![
                'p',
                'n',
                'j',
                'k',
                'b',
            ].contains(c);
            let looks = (arrow || letter) && !held || control_letter && key.modifiers.control;
            let lists = (key.code == KeyCode::Char('o') || key.code == KeyCode::Char('O'))
                && !key.modifiers.control && (app.engine.active_tab == Tab::Git
                || app.engine.active_tab == Tab::Graph && app.layout.last_total_width >= 100 && (
            app.engine.graph.file_diff_loaded || app.engine.graph.file_diff_loading));
            let leaves = key == plain(KeyCode::Esc) || key == plain(KeyCode::Char('q')) || key
                == ctrl(KeyCode::Char('c'));
            let said = focused_preview_spec(key, app, now);
            &&& looks ==> said is None
            &&& !looks && !lists && !leaves ==> said == Some((app, Seq::<Effect>::empty()))
        }),
{
    keys_of_focused_preview(key);
    if let KeyCode::Char(c) = key.code {
        let letters = seq![' ', 'j', 'k', 'h', '?', '/', 'n', 'N', 'm', 'f', '[', ']', 'g', 'G'];
        assert(letters[0] == ' ' && letters[1] == 'j' && letters[2] == 'k' && letters[3] == 'h'
            && letters[4] == '?' && letters[5] == '/' && letters[6] == 'n' && letters[7] == 'N'
            && letters[8] == 'm' && letters[9] == 'f' && letters[10] == '[' && letters[11] == ']'
            && letters[12] == 'g' && letters[13] == 'G');
        let with_control = seq!['p', 'n', 'j', 'k', 'b'];
        assert(with_control[0] == 'p' && with_control[1] == 'n' && with_control[2] == 'j'
            && with_control[3] == 'k' && with_control[4] == 'b');
    }
}

/// While a preview has the whole screen, a key that a waiting Space is meant for is left to the
/// tab, and so are `d` and `r` behind a waiting `g`.
pub proof fn chords_are_left_to_the_tab(
    key: KeyEvent,
    app: TuiApp,
    now: Timestamp,
    at: Timestamp,
)
    requires
        !app.engine.focused_preview_files_open,
        ({
            ||| app.space_leader_at == Some(at) && now.nanos < at.nanos + 800_000_000
            ||| app.g_pending_at == Some(at) && now.nanos < at.nanos + 500_000_000 && (key == plain(
                KeyCode::Char('d'),
            ) || key == plain(KeyCode::Char('r')))
        }),
    ensures
        focused_preview_spec(key, app, now) is None,
{
}

} // verus!
