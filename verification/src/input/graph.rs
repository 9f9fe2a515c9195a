//! Keys of the Graph tab.

use crate::app::TuiApp;
use crate::command::{none, nothing, one, run, run_and_drain, run_only, AppCommand, Effect};
use crate::engine::Panel;
use crate::event::{KeyCode, KeyEvent};
use crate::input::moves::{list_move, list_move_spec, move_rows, rows_of, ListMove};
use crate::layout::diff_column_width;
use vstd::prelude::*;

verus! {

/// The column where the diff begins, while the Graph tab shows three columns.
pub open spec fn diff_start(app: TuiApp, total_width: u16) -> Option<int> {
    if app.graph_uses_three_col() {
        Some(
            total_width - diff_column_width(
                total_width - app.sidebar(total_width),
                app.engine.columns.graph_diff_split_percent as int,
            ),
        )
    } else {
        None
    }
}

/// The column where the diff begins, while the Graph tab shows three columns.
pub fn graph_diff_column_start(app: &TuiApp, total_width: u16) -> (r: Option<u16>)
    ensures
        match r {
            Some(column) => diff_start(*app, total_width) == Some(column as int),
            None => diff_start(*app, total_width) is None,
        },
{
    if !app.graph_uses_three_col() {
        return None;
    }
    let (_, _, diff_w) = app.graph_three_col_widths(total_width);
    Some(total_width.saturating_sub(diff_w))
}

/// What scrolling the focused column beside the graph asks for: the commit's details,
/// or the diff where it has a column of its own.
pub open spec fn right_panel_effects(app: TuiApp, delta: i32) -> Seq<Effect> {
    match app.engine.active_panel {
        Panel::Files => nothing(),
        Panel::Commit => seq![Effect::CommitDetailScroll(delta)],
        Panel::Diff => if app.graph_uses_three_col() {
            run_only(AppCommand::ScrollCommitDetailFileDiffVertical(delta))
        } else {
            seq![Effect::CommitDetailScroll(delta)]
        },
    }
}

/// Scrolls the focused column beside the graph.
pub fn graph_scroll_right_panel(app: &TuiApp, delta: i32) -> (r: Vec<Effect>)
    ensures
        r@ == right_panel_effects(*app, delta),
{
    match app.engine.active_panel {
        Panel::Files => none(),
        Panel::Commit => one(Effect::CommitDetailScroll(delta)),
        Panel::Diff => {
            if app.graph_uses_three_col() {
                run(AppCommand::ScrollCommitDetailFileDiffVertical(delta))
            } else {
                one(Effect::CommitDetailScroll(delta))
            }
        },
    }
}

/// What a move through the graph asks for. With Shift, or in visual mode, it extends the
/// selection.
pub open spec fn graph_move_effects(app: TuiApp, by: ListMove, shift: bool) -> Seq<Effect> {
    if app.engine.active_panel != Panel::Files {
        right_panel_effects(app, rows_of(by, 20))
    } else if shift || app.engine.graph.in_visual_mode {
        run_only(AppCommand::ExtendGraphSelection(rows_of(by, 10)))
    } else {
        seq![
            Effect::GitGraphKeys {
                up: by == ListMove::Up || by == ListMove::PageUp,
                times: if by == ListMove::PageUp || by == ListMove::PageDown {
                    10
                } else {
                    1
                },
            },
        ]
    }
}

fn graph_move(app: &TuiApp, by: ListMove, shift: bool) -> (r: Vec<Effect>)
    ensures
        r@ == graph_move_effects(*app, by, shift),
{
    if app.engine.active_panel != Panel::Files {
        return graph_scroll_right_panel(app, move_rows(by, 20));
    }
    if shift || app.engine.graph.in_visual_mode {
        return run(AppCommand::ExtendGraphSelection(move_rows(by, 10)));
    }
    match by {
        ListMove::Up => one(Effect::GitGraphKeys { up: true, times: 1 }),
        ListMove::Down => one(Effect::GitGraphKeys { up: false, times: 1 }),
        ListMove::PageUp => one(Effect::GitGraphKeys { up: true, times: 10 }),
        ListMove::PageDown => one(Effect::GitGraphKeys { up: false, times: 10 }),
    }
}

/// What a key does on the Graph tab.
pub open spec fn graph_key_effects(key: KeyEvent, app: TuiApp) -> Seq<Effect> {
    let ctrl = key.modifiers.control;
    let on_graph = app.engine.active_panel == Panel::Files;
    let in_visual = app.engine.graph.in_visual_mode;
    match list_move_spec(key) {
        Some(by) => graph_move_effects(app, by, key.modifiers.shift),
        None => match key.code {
            KeyCode::Char('V') => if !on_graph {
                nothing()
            } else if in_visual {
                run_only(AppCommand::ClearGraphRange)
            } else if app.engine.graph.oids@.len() > 0 {
                run_only(AppCommand::ResetGraphVisualAnchor)
            } else {
                nothing()
            },
            KeyCode::Esc => if on_graph && in_visual {
                run_only(AppCommand::ClearGraphRange)
            } else {
                nothing()
            },
            KeyCode::Char('r') => run_only(AppCommand::RefreshGraphUncached),
            KeyCode::Char('b') => if !ctrl {
                run_and_drain(AppCommand::OpenGraphBranchPicker)
            } else {
                nothing()
            },
            KeyCode::Char('m') => if !ctrl {
                seq![Effect::CommitDetailKey('m')]
            } else {
                nothing()
            },
            KeyCode::Char('f') => if !ctrl {
                seq![Effect::CommitDetailKey('f')]
            } else {
                nothing()
            },
            KeyCode::Char('t') => if !ctrl {
                seq![Effect::CommitDetailKey('t')]
            } else {
                nothing()
            },
            _ => nothing(),
        },
    }
}

/// Gives a key to the Graph tab.
pub fn handle_key_graph(key: KeyEvent, app: &TuiApp) -> (r: Vec<Effect>)
    ensures
        r@ == graph_key_effects(key, *app),
{
    let ctrl = key.modifiers.control;
    let on_graph = app.engine.active_panel == Panel::Files;
    let in_visual = app.engine.graph.in_visual_mode;
    if let Some(by) = list_move(&key) {
        return graph_move(app, by, key.modifiers.shift);
    }
    match key.code {
        KeyCode::Char('V') if on_graph => {
            if in_visual {
                run(AppCommand::ClearGraphRange)
            } else if !app.engine.graph.oids.is_empty() {
                run(AppCommand::ResetGraphVisualAnchor)
            } else {
                none()
            }
        },
        KeyCode::Esc if on_graph && in_visual => run(AppCommand::ClearGraphRange),
        KeyCode::Char('r') => app.refresh_graph_uncached(),
        KeyCode::Char('b') if !ctrl => app.open_graph_branch_picker(),
        KeyCode::Char('m') if !ctrl => one(Effect::CommitDetailKey('m')),
        KeyCode::Char('f') if !ctrl => one(Effect::CommitDetailKey('f')),
        KeyCode::Char('t') if !ctrl => one(Effect::CommitDetailKey('t')),
        _ => none(),
    }
}

} // verus!
