//! Keys of the Search tab.

use crate::app::TuiApp;
use crate::command::{none, nothing, run, run_only, AppCommand, Effect};
use crate::engine::{Panel, SearchPanelFocus};
use crate::event::{KeyCode, KeyEvent};
use crate::global_search;
use crate::global_search::{accept_effects, move_effects, page_rows, page_step, reload_effects};
use crate::input::moves::{pan_columns, pan_step};
use crate::input_edit::{op_for_key, single_line_op};
use crate::keymap::{
    resolved, text_fields_bind_no_plain_character, Command, InputScope, Keymap,
};
use crate::time::Timestamp;
use vstd::prelude::*;

verus! {

/// What a key does in the results while no input has the focus.
pub open spec fn list_mode_effects(key: KeyEvent, app: TuiApp, now: Timestamp) -> Seq<Effect> {
    let ctrl = key.modifiers.control;
    let bare = key.modifiers.is_empty();
    let page = page_step(app.layout.global_search_last_view_h);
    let replace_open = app.engine.global_search.replace_open;
    match key.code {
        KeyCode::Up => if bare {
            move_effects(app, (-1) as i32, now)
        } else {
            nothing()
        },
        KeyCode::Down => if bare {
            move_effects(app, 1, now)
        } else {
            nothing()
        },
        KeyCode::PageUp => move_effects(app, (-page) as i32, now),
        KeyCode::PageDown => move_effects(app, page as i32, now),
        KeyCode::Left => run_only(
            AppCommand::ScrollGlobalSearchResultsHorizontal((-pan_step(key)) as i32),
        ),
        KeyCode::Right => run_only(
            AppCommand::ScrollGlobalSearchResultsHorizontal(pan_step(key) as i32),
        ),
        KeyCode::Home => run_only(AppCommand::SetGlobalSearchResultsHorizontalScroll(0)),
        KeyCode::End => run_only(AppCommand::ScrollGlobalSearchResultsToEnd),
        KeyCode::Tab => if bare {
            run_only(AppCommand::CycleGlobalSearchFocusForward)
        } else {
            nothing()
        },
        KeyCode::BackTab => run_only(AppCommand::CycleGlobalSearchFocusBackward),
        KeyCode::Enter => if replace_open && (ctrl || key.modifiers.alt) {
            run_only(AppCommand::CommitReplaceInFiles)
        } else {
            accept_effects(app)
        },
        KeyCode::Char(c) => if (bare || ctrl) && c == 'k' || ctrl && c == 'p' {
            move_effects(app, (-1) as i32, now)
        } else if (bare || ctrl) && c == 'j' || ctrl && c == 'n' {
            move_effects(app, 1, now)
        } else if bare && (c == 'i' || c == '/') {
            run_only(AppCommand::FocusGlobalSearchFindInput)
        } else if bare && c == 'r' {
            reload_effects(app, now)
        } else if c == 'R' {
            run_only(AppCommand::ToggleGlobalSearchReplace)
        } else if bare && c == ' ' && replace_open {
            run_only(
                AppCommand::ToggleGlobalSearchMatchExcluded(app.engine.global_search.selected_idx),
            )
        } else {
            nothing()
        },
        _ => nothing(),
    }
}

/// Gives a key to the results while no input has the focus.
pub fn handle_key_search_list_mode(key: KeyEvent, app: &TuiApp, now: Timestamp) -> (r: Vec<Effect>)
    ensures
        r@ == list_mode_effects(key, *app, now),
{
    let ctrl = key.modifiers.control;
    let bare = key.modifiers.is_empty();
    let replace_open = app.engine.global_search.replace_open;
    match key.code {
        KeyCode::Up if bare => global_search::move_selection_by(app, -1, now),
        KeyCode::Char('k') if bare => global_search::move_selection_by(app, -1, now),
        KeyCode::Down if bare => global_search::move_selection_by(app, 1, now),
        KeyCode::Char('j') if bare => global_search::move_selection_by(app, 1, now),
        KeyCode::Char('p') if ctrl => global_search::move_selection_by(app, -1, now),
        KeyCode::Char('k') if ctrl => global_search::move_selection_by(app, -1, now),
        KeyCode::Char('n') if ctrl => global_search::move_selection_by(app, 1, now),
        KeyCode::Char('j') if ctrl => global_search::move_selection_by(app, 1, now),
        KeyCode::PageUp => {
            let step: i32 = page_rows(app.layout.global_search_last_view_h);
            global_search::move_selection_by(app, -step, now)
        },
        KeyCode::PageDown => {
            let step: i32 = page_rows(app.layout.global_search_last_view_h);
            global_search::move_selection_by(app, step, now)
        },
        KeyCode::Left => run(AppCommand::ScrollGlobalSearchResultsHorizontal(-pan_columns(&key))),
        KeyCode::Right => run(AppCommand::ScrollGlobalSearchResultsHorizontal(pan_columns(&key))),
        KeyCode::Home => run(AppCommand::SetGlobalSearchResultsHorizontalScroll(0)),
        KeyCode::End => run(AppCommand::ScrollGlobalSearchResultsToEnd),
        KeyCode::Char('i') if bare => run(AppCommand::FocusGlobalSearchFindInput),
        KeyCode::Char('/') if bare => run(AppCommand::FocusGlobalSearchFindInput),
        KeyCode::Char('r') if bare => global_search::reload(app, now),
        KeyCode::Char('R') => run(AppCommand::ToggleGlobalSearchReplace),
        KeyCode::Char(' ') if bare && replace_open => run(
            AppCommand::ToggleGlobalSearchMatchExcluded(app.engine.global_search.selected_idx),
        ),
        KeyCode::Tab if bare => run(AppCommand::CycleGlobalSearchFocusForward),
        KeyCode::BackTab => run(AppCommand::CycleGlobalSearchFocusBackward),
        KeyCode::Enter if replace_open && (ctrl || key.modifiers.alt) => app.commit_replace_in_files(),
        KeyCode::Enter => global_search::accept(app),
        _ => none(),
    }
}

/// What the bindings that both inputs share make of a key, or nothing where it is none
/// of them.
pub open spec fn input_binding_effects(key: KeyEvent, app: TuiApp, now: Timestamp) -> Option<
    Seq<Effect>,
> {
    let page = page_step(app.layout.global_search_last_view_h);
    match resolved(InputScope::SearchInput, key) {
        Some(Command::Close) => Some(run_only(AppCommand::FocusGlobalSearchList)),
        Some(Command::Quit) => Some(run_only(AppCommand::Quit)),
        Some(Command::MoveUp) => Some(move_effects(app, (-1) as i32, now)),
        Some(Command::MoveDown) => Some(move_effects(app, 1, now)),
        Some(Command::PageUp) => Some(move_effects(app, (-page) as i32, now)),
        Some(Command::PageDown) => Some(move_effects(app, page as i32, now)),
        Some(Command::Confirm) => None,
        _ => if key.code == KeyCode::Tab && key.modifiers.is_empty() {
            Some(run_only(AppCommand::CycleGlobalSearchFocusForward))
        } else if key.code == KeyCode::BackTab {
            Some(run_only(AppCommand::CycleGlobalSearchFocusBackward))
        } else {
            None
        },
    }
}

fn input_binding(key: KeyEvent, app: &TuiApp, now: Timestamp) -> (r: Option<Vec<Effect>>)
    ensures
        match r {
            Some(effects) => input_binding_effects(key, *app, now) == Some(effects@),
            None => input_binding_effects(key, *app, now) is None,
        },
{
    match Keymap::resolve(InputScope::SearchInput, &key) {
        Some(Command::Close) => Some(run(AppCommand::FocusGlobalSearchList)),
        Some(Command::Quit) => Some(app.quit()),
        Some(Command::MoveUp) => Some(global_search::move_selection_by(app, -1, now)),
        Some(Command::MoveDown) => Some(global_search::move_selection_by(app, 1, now)),
        Some(Command::PageUp) => {
            let step: i32 = page_rows(app.layout.global_search_last_view_h);
            Some(global_search::move_selection_by(app, -step, now))
        },
        Some(Command::PageDown) => {
            let step: i32 = page_rows(app.layout.global_search_last_view_h);
            Some(global_search::move_selection_by(app, step, now))
        },
        Some(Command::Confirm) => None,
        _ => {
            if key.code == KeyCode::Tab && key.modifiers.is_empty() {
                Some(run(AppCommand::CycleGlobalSearchFocusForward))
            } else if key.code == KeyCode::BackTab {
                Some(run(AppCommand::CycleGlobalSearchFocusBackward))
            } else {
                None
            }
        },
    }
}

/// What a key does in the find input. Enter takes the selected hit, and with Control or
/// Alt it applies the replacement that is open.
pub open spec fn find_input_effects(key: KeyEvent, app: TuiApp, now: Timestamp) -> Seq<Effect> {
    match input_binding_effects(key, app, now) {
        Some(effects) => effects,
        None => if resolved(InputScope::SearchInput, key) == Some(Command::Confirm) {
            if app.engine.global_search.replace_open && (key.modifiers.control || key.modifiers.alt)
            {
                run_only(AppCommand::CommitReplaceInFiles)
            } else {
                accept_effects(app)
            }
        } else {
            match single_line_op(key) {
                Some(op) => run_only(AppCommand::EditGlobalSearchFindInput { op, now }),
                None => nothing(),
            }
        },
    }
}

/// Gives a key to the find input.
pub fn handle_key_search_find_input(key: KeyEvent, app: &TuiApp, now: Timestamp) -> (r: Vec<Effect>)
    ensures
        r@ == find_input_effects(key, *app, now),
{
    if let Some(effects) = input_binding(key, app, now) {
        return effects;
    }
    if Keymap::resolve(InputScope::SearchInput, &key) == Some(Command::Confirm) {
        if app.engine.global_search.replace_open && (key.modifiers.control || key.modifiers.alt) {
            return app.commit_replace_in_files();
        }
        return global_search::accept(app);
    }
    match op_for_key(&key) {
        Some(op) => run(AppCommand::EditGlobalSearchFindInput { op, now }),
        None => none(),
    }
}

/// What a key does in the replace input. Enter applies the replacement.
pub open spec fn replace_input_effects(key: KeyEvent, app: TuiApp, now: Timestamp) -> Seq<Effect> {
    match input_binding_effects(key, app, now) {
        Some(effects) => effects,
        None => if resolved(InputScope::SearchInput, key) == Some(Command::Confirm) {
            run_only(AppCommand::CommitReplaceInFiles)
        } else {
            match single_line_op(key) {
                Some(op) => run_only(AppCommand::EditGlobalSearchReplaceInput(op)),
                None => nothing(),
            }
        },
    }
}

/// Gives a key to the replace input.
pub fn handle_key_search_replace_input(key: KeyEvent, app: &TuiApp, now: Timestamp) -> (r: Vec<
    Effect,
>)
    ensures
        r@ == replace_input_effects(key, *app, now),
{
    if let Some(effects) = input_binding(key, app, now) {
        return effects;
    }
    if Keymap::resolve(InputScope::SearchInput, &key) == Some(Command::Confirm) {
        return app.commit_replace_in_files();
    }
    match op_for_key(&key) {
        Some(op) => run(AppCommand::EditGlobalSearchReplaceInput(op)),
        None => none(),
    }
}

/// What a key does in the preview beside the results.
pub open spec fn search_preview_effects(key: KeyEvent, app: TuiApp) -> Seq<Effect> {
    match key.code {
        KeyCode::Up => run_only(AppCommand::PreviewScroll((-1) as i32)),
        KeyCode::Char('k') => run_only(AppCommand::PreviewScroll((-1) as i32)),
        KeyCode::Down => run_only(AppCommand::PreviewScroll(1)),
        KeyCode::Char('j') => run_only(AppCommand::PreviewScroll(1)),
        KeyCode::PageUp => run_only(AppCommand::PreviewScroll((-20) as i32)),
        KeyCode::PageDown => run_only(AppCommand::PreviewScroll(20)),
        KeyCode::Left => run_only(AppCommand::PreviewHorizontalScroll((-pan_step(key)) as i32)),
        KeyCode::Right => run_only(AppCommand::PreviewHorizontalScroll(pan_step(key) as i32)),
        KeyCode::Home => run_only(AppCommand::SetPreviewHorizontalScroll(0)),
        KeyCode::End => run_only(AppCommand::SetPreviewHorizontalScroll(usize::MAX)),
        KeyCode::Enter => accept_effects(app),
        _ => nothing(),
    }
}

fn search_preview_key(key: KeyEvent, app: &TuiApp) -> (r: Vec<Effect>)
    ensures
        r@ == search_preview_effects(key, *app),
{
    match key.code {
        KeyCode::Up | KeyCode::Char('k') => run(AppCommand::PreviewScroll(-1)),
        KeyCode::Down | KeyCode::Char('j') => run(AppCommand::PreviewScroll(1)),
        KeyCode::PageUp => run(AppCommand::PreviewScroll(-20)),
        KeyCode::PageDown => run(AppCommand::PreviewScroll(20)),
        KeyCode::Left => run(AppCommand::PreviewHorizontalScroll(-pan_columns(&key))),
        KeyCode::Right => run(AppCommand::PreviewHorizontalScroll(pan_columns(&key))),
        KeyCode::Home => run(AppCommand::SetPreviewHorizontalScroll(0)),
        KeyCode::End => run(AppCommand::SetPreviewHorizontalScroll(usize::MAX)),
        KeyCode::Enter => global_search::accept(app),
        _ => none(),
    }
}

/// What a key does on the Search tab.
pub open spec fn search_tab_effects(key: KeyEvent, app: TuiApp, now: Timestamp) -> Seq<Effect> {
    match app.engine.active_panel {
        Panel::Files => match app.engine.global_search.focus {
            SearchPanelFocus::FindInput => find_input_effects(key, app, now),
            SearchPanelFocus::ReplaceInput => replace_input_effects(key, app, now),
            SearchPanelFocus::List => list_mode_effects(key, app, now),
        },
        Panel::Commit => nothing(),
        Panel::Diff => search_preview_effects(key, app),
    }
}

/// Gives a key to the Search tab.
pub fn handle_key_search(key: KeyEvent, app: &TuiApp, now: Timestamp) -> (r: Vec<Effect>)
    ensures
        r@ == search_tab_effects(key, *app, now),
{
    match app.engine.active_panel {
        Panel::Files => match app.engine.global_search.focus {
            SearchPanelFocus::FindInput => handle_key_search_find_input(key, app, now),
            SearchPanelFocus::ReplaceInput => handle_key_search_replace_input(key, app, now),
            SearchPanelFocus::List => handle_key_search_list_mode(key, app, now),
        },
        Panel::Commit => none(),
        Panel::Diff => search_preview_key(key, app),
    }
}

/// A character typed into the find or the replace input edits that input and nothing
/// else, unless it is held with Control or Alt.
pub proof fn typing_in_an_input_only_edits_it(key: KeyEvent, app: TuiApp, now: Timestamp, c: char)
    requires
        key.code == KeyCode::Char(c),
        !key.modifiers.control,
        !key.modifiers.alt,
    ensures
        find_input_effects(key, app, now) == run_only(
            AppCommand::EditGlobalSearchFindInput {
                op: crate::input_edit::TextEditOp::InsertChar(c),
                now,
            },
        ),
        replace_input_effects(key, app, now) == run_only(
            AppCommand::EditGlobalSearchReplaceInput(crate::input_edit::TextEditOp::InsertChar(c)),
        ),
{
    text_fields_bind_no_plain_character(InputScope::SearchInput, key);
}

} // verus!
