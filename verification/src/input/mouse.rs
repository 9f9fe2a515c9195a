//! What a mouse event does: the overlays that own the mouse first, then whatever lies on
//! top at its cell, then selections, then the panel.

use crate::app::TuiApp;
use crate::command::{
    input_modifiers, join, none, nothing, one, run, run_and_drain, run_only, run_then_drain, two,
    AppCommand, Effect, NavAnchor, Resume,
};
use crate::engine::{Panel, PreviewKind, Tab, ViewMode};
use crate::event::{MouseButton, MouseEvent, MouseEventKind};
use crate::global_search;
use crate::input::dragging::{
    commit_selecting, diff_selecting, handle_commit_detail_selection, handle_diff_selection,
    handle_preview_selection, is_in, lies_in, preview_selecting, MouseProbe,
};
use crate::input::graph::{diff_start, graph_diff_column_start};
use crate::input::popups::{
    handle_mouse_graph_branch_picker, handle_mouse_hosts_picker, handle_mouse_place_mode,
    picker_mouse_spec, place_mouse_spec, Picker,
};
use crate::input::scrolling::{
    dispatch_horizontal_scroll, dispatch_vertical_scroll, horizontal_scroll_spec,
    vertical_scroll_spec, width_or_fallback,
};
use crate::layout::{larger, monus, smaller};
use crate::quick_open;
use crate::selection::{is_double_click, is_double_spec, remember_click, remembered, DiffHover};
use crate::time::Timestamp;
use crate::ui::mouse::ClickAction;
use crate::ui::nav_candidates_popup::PeekAction;
use vstd::prelude::*;

verus! {

/// The column of the tab that a column of the screen belongs to.
pub open spec fn panel_under(app: TuiApp, column: u16, total_width: u16) -> Panel {
    if column < app.sidebar(total_width) {
        Panel::Files
    } else {
        match diff_start(app, total_width) {
            Some(start) => if column >= start {
                Panel::Diff
            } else {
                Panel::Commit
            },
            None => Panel::Diff,
        }
    }
}

/// Moves the focus to the column under the cursor.
pub fn focus_panel_under_cursor(app: &TuiApp, column: u16, total_width: u16) -> (r: Vec<Effect>)
    ensures
        r@ == run_only(AppCommand::SetActivePanel(panel_under(*app, column, total_width))),
{
    let graph_x: u16 = app.graph_sidebar_width(total_width);
    if column < graph_x {
        return app.set_active_panel(Panel::Files);
    }
    match graph_diff_column_start(app, total_width) {
        Some(start) => {
            if column >= start {
                app.set_active_panel(Panel::Diff)
            } else {
                app.set_active_panel(Panel::Commit)
            }
        },
        None => app.set_active_panel(Panel::Diff),
    }
}

/// The first row of the graph with this commit.
pub open spec fn row_of_commit(oids: Seq<String>, oid: Seq<char>, from: int) -> Option<int>
    decreases oids.len() - from,
{
    if from < 0 || from >= oids.len() {
        None
    } else if oids[from]@ == oid {
        Some(from)
    } else {
        row_of_commit(oids, oid, from + 1)
    }
}

fn find_row_of_commit(oids: &Vec<String>, oid: &String) -> (r: Option<usize>)
    ensures
        match r {
            Some(i) => row_of_commit(oids@, oid@, 0) == Some(i as int) && i < oids@.len(),
            None => row_of_commit(oids@, oid@, 0) is None,
        },
{
    let mut i: usize = 0;
    while i < oids.len()
        invariant
            i <= oids@.len(),
            row_of_commit(oids@, oid@, 0) == row_of_commit(oids@, oid@, i as int),
        decreases oids@.len() - i,
    {
        if oids[i] == *oid {
            return Some(i);
        }
        i += 1;
    }
    None
}

/// Whether the rows of the graph can be counted by a move.
pub open spec fn graph_rows_fit(app: TuiApp) -> bool {
    app.engine.graph.oids@.len() <= i32::MAX && app.engine.graph.selected_idx <= i32::MAX
}

/// How far a click on this zone with Shift extends the graph's selection.
pub open spec fn graph_extension(app: TuiApp, action: ClickAction, shift: bool) -> Option<i32> {
    match action {
        ClickAction::GitCommand { command, oid: Some(oid), payload: _ } => if shift && command@
            == "git.selectCommit"@ {
            match row_of_commit(app.engine.graph.oids@, oid@, 0) {
                Some(row) => Some((row - app.engine.graph.selected_idx) as i32),
                None => None,
            }
        } else {
            None
        },
        _ => None,
    }
}

fn extends_graph_by(app: &TuiApp, action: &ClickAction, shift: bool) -> (r: Option<i32>)
    requires
        graph_rows_fit(*app),
    ensures
        r == graph_extension(*app, *action, shift),
{
    match action {
        ClickAction::GitCommand { command, oid, payload: _ } => match oid {
            Some(oid) => {
                if !shift || *command != "git.selectCommit".to_string() {
                    return None;
                }
                match find_row_of_commit(&app.engine.graph.oids, oid) {
                    Some(row) => Some(row as i32 - app.engine.graph.selected_idx as i32),
                    None => None,
                }
            },
            None => None,
        },
        _ => None,
    }
}

/// What a press of the left button on a zone asks for, once the focus has followed it.
/// In the file tree Shift extends the selection and Control takes the row in or out;
/// without them the press may become a drag.
pub open spec fn zone_press_effects(app: TuiApp, mouse: MouseEvent, action: ClickAction) -> Seq<
    Effect,
> {
    match graph_extension(app, action, mouse.modifiers.shift) {
        Some(delta) => run_and_drain(AppCommand::ExtendGraphSelection(delta)),
        None => match action {
            ClickAction::TreeClick(idx) => if app.engine.active_tab == Tab::Files && idx
                < app.engine.tree.entries@.len() {
                if mouse.modifiers.shift {
                    run_only(AppCommand::ExtendFileSelectionToIndex(idx))
                } else if mouse.modifiers.control {
                    run_only(AppCommand::ToggleFileSelectionAtIndex(idx))
                } else {
                    run_only(
                        AppCommand::ArmFileTreeDragPress {
                            idx,
                            col: mouse.column,
                            row: mouse.row,
                            mods: input_modifiers(mouse.modifiers),
                        },
                    ) + app.action_effects(action)
                }
            } else {
                app.action_effects(action)
            },
            _ => app.action_effects(action),
        },
    }
}

/// Whether a press on a zone only changes a selection of rows, and does not click the
/// zone itself.
pub open spec fn only_selects(app: TuiApp, mouse: MouseEvent, action: ClickAction) -> bool {
    graph_extension(app, action, mouse.modifiers.shift) is Some || (action matches
        ClickAction::TreeClick(idx) && app.engine.active_tab == Tab::Files && idx
        < app.engine.tree.entries@.len() && (mouse.modifiers.shift || mouse.modifiers.control))
}

fn press_zone(app: &mut TuiApp, mouse: MouseEvent, action: ClickAction) -> (r: Vec<Effect>)
    requires
        graph_rows_fit(*old(app)),
    ensures
        *final(app) == (if only_selects(*old(app), mouse, action) {
            *old(app)
        } else {
            old(app).after_action(action)
        }),
        r@ == zone_press_effects(*old(app), mouse, action),
{
    if let Some(delta) = extends_graph_by(app, &action, mouse.modifiers.shift) {
        return app.extend_graph_selection(delta);
    }
    if let ClickAction::TreeClick(idx) = action {
        if app.engine.active_tab == Tab::Files && idx < app.engine.tree.entries.len() {
            if mouse.modifiers.shift {
                return run(AppCommand::ExtendFileSelectionToIndex(idx));
            }
            if mouse.modifiers.control {
                return run(AppCommand::ToggleFileSelectionAtIndex(idx));
            }
            let arm = run(
                AppCommand::ArmFileTreeDragPress {
                    idx,
                    col: mouse.column,
                    row: mouse.row,
                    mods: input_modifiers(mouse.modifiers),
                },
            );
            let click = app.handle_action(ClickAction::TreeClick(idx));
            return join(arm, click);
        }
    }
    app.handle_action(action)
}

/// What moving the focus along with a press asks for.
pub open spec fn focus_effects(app: TuiApp, mouse: MouseEvent, width: Option<u16>) -> Seq<Effect> {
    match width {
        Some(w) => run_only(AppCommand::SetActivePanel(panel_under(app, mouse.column, w))),
        None => nothing(),
    }
}

/// What a press of the left button does that no overlay and no selection has taken. A
/// double click on a search hit goes there.
pub open spec fn press_spec(mouse: MouseEvent, app: TuiApp, now: Timestamp, width: Option<u16>) -> (
    TuiApp,
    Seq<Effect>,
) {
    let focus = focus_effects(app, mouse, width);
    let is_double = is_double_spec(app.last_click, now, mouse.column, mouse.row);
    let click = remembered(is_double, now, mouse.column, mouse.row);
    match app.hit_registry.hit(mouse.column, mouse.row) {
        None => (TuiApp { last_click: click, ..app }, focus),
        Some(action) => if is_double && action is GlobalSearchSelect {
            (
                TuiApp { last_click: None, ..app },
                focus + seq![
                    Effect::Run(
                        AppCommand::SelectGlobalSearchResult {
                            idx: action->GlobalSearchSelect_0,
                            visible_rows: app.layout.global_search_last_view_h as usize,
                        },
                    ),
                    Effect::Then(Resume::AcceptGlobalSearch),
                ],
            )
        } else {
            (
                TuiApp {
                    last_click: click,
                    ..(if only_selects(app, mouse, action) {
                        app
                    } else {
                        app.after_action(action)
                    })
                },
                focus + zone_press_effects(app, mouse, action),
            )
        },
    }
}

fn press(mouse: MouseEvent, app: &mut TuiApp, now: Timestamp, width: Option<u16>) -> (r: Vec<
    Effect,
>)
    requires
        graph_rows_fit(*old(app)),
    ensures
        *final(app) == press_spec(mouse, *old(app), now, width).0,
        r@ == press_spec(mouse, *old(app), now, width).1,
{
    let focus = match width {
        Some(w) => focus_panel_under_cursor(app, mouse.column, w),
        None => none(),
    };
    let is_double = is_double_click(app.last_click, now, mouse.column, mouse.row);
    let hit = app.hit_registry.hit_test(mouse.column, mouse.row);
    let effects = match hit {
        None => none(),
        Some(ClickAction::GlobalSearchSelect(idx)) => {
            if is_double {
                app.last_click = None;
                let accept = two(
                    Effect::Run(
                        AppCommand::SelectGlobalSearchResult {
                            idx,
                            visible_rows: app.layout.global_search_last_view_h as usize,
                        },
                    ),
                    Effect::Then(Resume::AcceptGlobalSearch),
                );
                return join(focus, accept);
            }
            press_zone(app, mouse, ClickAction::GlobalSearchSelect(idx))
        },
        Some(action) => press_zone(app, mouse, action),
    };
    app.last_click = remember_click(is_double, now, mouse.column, mouse.row);
    join(focus, effects)
}

/// The row of the file tree that a zone stands for.
pub open spec fn tree_row_of(action: Option<ClickAction>) -> Option<usize> {
    match action {
        Some(ClickAction::TreeClick(idx)) => Some(idx),
        _ => None,
    }
}

fn tree_row(action: Option<ClickAction>) -> (r: Option<usize>)
    ensures
        r == tree_row_of(action),
{
    match action {
        Some(ClickAction::TreeClick(idx)) => Some(idx),
        _ => None,
    }
}

/// The sidebar's share of the screen when its edge is dragged to `column`, in percent.
/// Neither side gets less than a tenth, and the sidebar no more than eight.
pub open spec fn dragged_split(column: int, total_width: int) -> int {
    larger(10, smaller(80, column * 100 / total_width))
}

/// The diff's share of what the sidebar leaves when its edge is dragged to `column`, in
/// percent, or nothing where the sidebar leaves nothing.
pub open spec fn dragged_diff_split(column: int, total_width: int, split_percent: int) -> Option<int> {
    let remainder = monus(total_width, total_width * split_percent / 100);
    if remainder > 0 {
        Some(monus(total_width, column) * 100 / remainder)
    } else {
        None
    }
}

/// What dragging the edge of a column asks for.
pub open spec fn edge_drag_effects(app: TuiApp, column: u16, total_width: u16) -> Seq<Effect> {
    if total_width == 0 {
        nothing()
    } else if app.dragging_split {
        run_only(
            AppCommand::SetSplitPercent(dragged_split(column as int, total_width as int) as u16),
        )
    } else if app.dragging_graph_diff_split {
        match dragged_diff_split(
            column as int,
            total_width as int,
            app.engine.columns.split_percent as int,
        ) {
            Some(percent) => run_only(
                AppCommand::SetGraphDiffSplitPercent((percent as u32) as u16),
            ),
            None => nothing(),
        }
    } else {
        nothing()
    }
}

fn drag_edge(app: &TuiApp, column: u16, total_width: u16) -> (r: Vec<Effect>)
    ensures
        r@ == edge_drag_effects(*app, column, total_width),
{
    if total_width == 0 {
        return none();
    }
    let total: u32 = total_width as u32;
    if app.dragging_split {
        proof {
            assert(0 <= column * 100 / (total_width as int) <= column * 100) by (nonlinear_arith)
                requires
                    total_width > 0,
                    column >= 0,
            ;
        }
        let share: u32 = column as u32 * 100 / total;
        let percent: u32 = if share < 10 {
            10
        } else if share > 80 {
            80
        } else {
            share
        };
        return run(AppCommand::SetSplitPercent(percent as u16));
    }
    if !app.dragging_graph_diff_split {
        return none();
    }
    let split: u32 = app.engine.columns.split_percent as u32;
    proof {
        assert(total_width * app.engine.columns.split_percent <= 65535 * 65535) by (nonlinear_arith)
            requires
                total_width <= 65535,
                app.engine.columns.split_percent <= 65535,
                0 <= total_width,
                0 <= app.engine.columns.split_percent,
        ;
    }
    let graph_x: u32 = total * split / 100;
    let remainder: u32 = total.saturating_sub(graph_x);
    if remainder == 0 {
        return none();
    }
    let from_right: u32 = total.saturating_sub(column as u32);
    proof {
        assert(0 <= (from_right * 100) / (remainder as int)) by (nonlinear_arith)
            requires
                remainder > 0,
                from_right >= 0,
        ;
    }
    let percent: u32 = from_right * 100 / remainder;
    run(AppCommand::SetGraphDiffSplitPercent(#[verifier::truncate] (percent as u16)))
}

/// What a drag with the left button asks for that no selection has taken: a press on the
/// tree becomes a drag once it has moved far enough, and otherwise an edge moves.
pub open spec fn drag_effects(mouse: MouseEvent, app: TuiApp, probe: MouseProbe) -> Seq<Effect> {
    if !app.engine.overlays.tree_drag && app.engine.tree.drag_press_armed && probe.starts_drag {
        app.tree_drag_effects(input_modifiers(mouse.modifiers)) + run_only(
            AppCommand::UpdateTreeDragHover(
                tree_row_of(app.hit_registry.hit(mouse.column, mouse.row)),
            ),
        )
    } else {
        edge_drag_effects(app, mouse.column, width_or_fallback(probe.terminal_width))
    }
}

fn drag(mouse: MouseEvent, app: &TuiApp, probe: &MouseProbe) -> (r: Vec<Effect>)
    ensures
        r@ == drag_effects(mouse, *app, *probe),
{
    if !app.engine.overlays.tree_drag && app.engine.tree.drag_press_armed && probe.starts_drag {
        let begin = app.begin_tree_drag(input_modifiers(mouse.modifiers));
        let row = tree_row(app.hit_registry.hit_test(mouse.column, mouse.row));
        return join(begin, app.update_tree_drag_hover(row));
    }
    drag_edge(app, mouse.column, width_or_fallback(probe.terminal_width))
}

/// The identifier of the preview that Control underlines: the one under the cursor,
/// while it is over a plain text.
pub open spec fn hovered_identifier(mouse: MouseEvent, app: TuiApp, probe: MouseProbe) -> Option<
    (usize, usize, usize),
> {
    if mouse.modifiers.control && lies_in(app.last_preview_rect, mouse)
        && app.last_preview_content_origin is Some && app.engine.preview.kind == PreviewKind::Text
        && app.engine.preview.row_count > 0 {
        probe.preview_identifier
    } else {
        None
    }
}

/// The identifier of the diff that Control underlines.
pub open spec fn hovered_in_diff(mouse: MouseEvent, app: TuiApp, probe: MouseProbe) -> Option<
    DiffHover,
> {
    if mouse.modifiers.control && lies_in(app.last_diff_rect, mouse) && app.last_diff_hit is Some {
        probe.diff_identifier
    } else {
        None
    }
}

/// What a move of the mouse does. A list of definitions that a Control-click opened
/// goes down as soon as Control is let go.
pub open spec fn move_spec(mouse: MouseEvent, app: TuiApp, probe: MouseProbe) -> (
    TuiApp,
    Seq<Effect>,
) {
    (
        TuiApp {
            hover_row: Some(mouse.row),
            hover_col: Some(mouse.column),
            diff_ctrl_hover: hovered_in_diff(mouse, app, probe),
            ..app
        },
        (if !mouse.modifiers.control && app.engine.nav_opened_by_ctrl_click {
            seq![Effect::NavCloseCandidates]
        } else {
            nothing()
        }) + run_only(AppCommand::SetCtrlHoverTarget(hovered_identifier(mouse, app, probe))),
    )
}

fn move_mouse(mouse: MouseEvent, app: &mut TuiApp, probe: &MouseProbe) -> (r: Vec<Effect>)
    ensures
        *final(app) == move_spec(mouse, *old(app), *probe).0,
        r@ == move_spec(mouse, *old(app), *probe).1,
{
    let has_ctrl = mouse.modifiers.control;
    let close = if !has_ctrl && app.engine.nav_opened_by_ctrl_click {
        one(Effect::NavCloseCandidates)
    } else {
        none()
    };
    let identifier = if has_ctrl && is_in(app.last_preview_rect, &mouse)
        && app.last_preview_content_origin.is_some() && app.engine.preview.kind == PreviewKind::Text
        && app.engine.preview.row_count > 0 {
        probe.preview_identifier
    } else {
        None
    };
    let diff_hover = if has_ctrl && is_in(app.last_diff_rect, &mouse)
        && app.last_diff_hit.is_some() {
        probe.diff_identifier
    } else {
        None
    };
    app.hover_row = Some(mouse.row);
    app.hover_col = Some(mouse.column);
    app.diff_ctrl_hover = diff_hover;
    join(close, run(AppCommand::SetCtrlHoverTarget(identifier)))
}

/// What a release of the left button asks for that no selection has taken: a press on
/// the tree that has become no drag was a click.
pub open spec fn release_effects(app: TuiApp) -> Seq<Effect> {
    if !app.engine.overlays.tree_drag && app.engine.tree.drag_press_armed {
        run_only(AppCommand::CancelTreeDrag)
    } else {
        nothing()
    }
}

/// What a mouse event does that no overlay and no selection has taken. Shift turns the
/// wheel sideways.
pub open spec fn panel_mouse_spec(
    mouse: MouseEvent,
    app: TuiApp,
    now: Timestamp,
    probe: MouseProbe,
) -> (TuiApp, Seq<Effect>) {
    let width = probe.terminal_width;
    let shift = mouse.modifiers.shift;
    match mouse.kind {
        MouseEventKind::Down(MouseButton::Left) => press_spec(mouse, app, now, width),
        MouseEventKind::Up(MouseButton::Left) => (
            TuiApp { dragging_split: false, dragging_graph_diff_split: false, ..app },
            release_effects(app),
        ),
        MouseEventKind::Drag(MouseButton::Left) => (app, drag_effects(mouse, app, probe)),
        MouseEventKind::ScrollUp => if shift {
            horizontal_scroll_spec(true, mouse, app, now, width)
        } else {
            vertical_scroll_spec(true, mouse, app, now, width)
        },
        MouseEventKind::ScrollDown => if shift {
            horizontal_scroll_spec(false, mouse, app, now, width)
        } else {
            vertical_scroll_spec(false, mouse, app, now, width)
        },
        MouseEventKind::ScrollLeft => horizontal_scroll_spec(true, mouse, app, now, width),
        MouseEventKind::ScrollRight => horizontal_scroll_spec(false, mouse, app, now, width),
        MouseEventKind::Moved => move_spec(mouse, app, probe),
        _ => (app, nothing()),
    }
}

fn give_to_panel(mouse: MouseEvent, app: &mut TuiApp, now: Timestamp, probe: &MouseProbe) -> (r: Vec<
    Effect,
>)
    requires
        graph_rows_fit(*old(app)),
    ensures
        *final(app) == panel_mouse_spec(mouse, *old(app), now, *probe).0,
        r@ == panel_mouse_spec(mouse, *old(app), now, *probe).1,
{
    let width = probe.terminal_width;
    let shift = mouse.modifiers.shift;
    match mouse.kind {
        MouseEventKind::Down(MouseButton::Left) => press(mouse, app, now, width),
        MouseEventKind::Up(MouseButton::Left) => {
            app.dragging_split = false;
            app.dragging_graph_diff_split = false;
            if !app.engine.overlays.tree_drag && app.engine.tree.drag_press_armed {
                app.cancel_tree_drag()
            } else {
                none()
            }
        },
        MouseEventKind::Drag(MouseButton::Left) => drag(mouse, app, probe),
        MouseEventKind::ScrollUp => {
            if shift {
                dispatch_horizontal_scroll(true, mouse, app, now, width)
            } else {
                dispatch_vertical_scroll(true, mouse, app, now, width)
            }
        },
        MouseEventKind::ScrollDown => {
            if shift {
                dispatch_horizontal_scroll(false, mouse, app, now, width)
            } else {
                dispatch_vertical_scroll(false, mouse, app, now, width)
            }
        },
        MouseEventKind::ScrollLeft => dispatch_horizontal_scroll(true, mouse, app, now, width),
        MouseEventKind::ScrollRight => dispatch_horizontal_scroll(false, mouse, app, now, width),
        MouseEventKind::Moved => move_mouse(mouse, app, probe),
        _ => none(),
    }
}

/// What a mouse event does once it is past the overlays: selections first, the
/// preview's before the diff's before the commit's.
pub open spec fn selecting_spec(
    mouse: MouseEvent,
    app: TuiApp,
    now: Timestamp,
    probe: MouseProbe,
) -> (TuiApp, Seq<Effect>) {
    let preview = preview_selecting(mouse, app, now, probe);
    let diff = diff_selecting(mouse, preview.app, now, probe);
    let commit = commit_selecting(mouse, diff.app, now, probe);
    if preview.done {
        (preview.app, preview.effects)
    } else if diff.done {
        (diff.app, preview.effects + diff.effects)
    } else if commit.done {
        (commit.app, preview.effects + commit.effects)
    } else {
        let rest = panel_mouse_spec(mouse, commit.app, now, probe);
        (rest.0, preview.effects + rest.1)
    }
}

fn give_to_selections(mouse: MouseEvent, app: &mut TuiApp, now: Timestamp, probe: &MouseProbe) -> (r:
    Vec<Effect>)
    requires
        graph_rows_fit(*old(app)),
    ensures
        *final(app) == selecting_spec(mouse, *old(app), now, *probe).0,
        r@ == selecting_spec(mouse, *old(app), now, *probe).1,
{
    let (preview, preview_done) = handle_preview_selection(&mouse, app, now, probe);
    if preview_done {
        return preview;
    }
    let (diff, diff_done) = handle_diff_selection(&mouse, app, now, probe);
    if diff_done {
        return join(preview, diff);
    }
    let (commit, commit_done) = handle_commit_detail_selection(&mouse, app, now, probe);
    if commit_done {
        return join(preview, commit);
    }
    let rest = give_to_panel(mouse, app, now, probe);
    join(preview, rest)
}

/// Whether a zone belongs to the find widget.
pub open spec fn is_find_widget_zone(action: ClickAction) -> bool {
    action is FindWidgetClose || action is FindWidgetNext || action is FindWidgetPrev
        || action is FindWidgetToggleCase || action is FindWidgetToggleWord
        || action is FindWidgetToggleRegex
}

/// Whether a zone belongs to the focused preview's list of files.
pub open spec fn is_files_list_zone(action: ClickAction) -> bool {
    action is ToggleFocusedPreviewFiles || action is PickFocusedPreviewFile
        || action is CloseFocusedPreviewFiles
}

/// Whether a zone belongs to the list of places that a symbol leads to, or closes it.
pub open spec fn is_candidates_zone(action: ClickAction) -> bool {
    action is NavCandidateSelect || action is NavCandidateGroupToggle
        || action is NavCandidatesClose || action is NavCandidatesCapture
}

/// Whether a press on this zone goes to what is drawn on top of the text there, instead
/// of selecting text.
pub open spec fn lies_on_top(app: TuiApp, mouse: MouseEvent, action: ClickAction) -> bool {
    ||| app.engine.find_widget.active && is_find_widget_zone(action)
    ||| app.engine.view_mode == ViewMode::FocusedPreview && is_files_list_zone(action)
    ||| app.engine.overlays.nav_candidates && is_candidates_zone(action)
    ||| lies_in(app.last_preview_rect, mouse) && action is OpenMarkdownLink
}

fn is_on_top(app: &TuiApp, mouse: &MouseEvent, action: &ClickAction) -> (r: bool)
    ensures
        r == lies_on_top(*app, *mouse, *action),
{
    match action {
        ClickAction::FindWidgetClose
        | ClickAction::FindWidgetNext
        | ClickAction::FindWidgetPrev
        | ClickAction::FindWidgetToggleCase
        | ClickAction::FindWidgetToggleWord
        | ClickAction::FindWidgetToggleRegex => app.engine.find_widget.active,
        ClickAction::ToggleFocusedPreviewFiles
        | ClickAction::PickFocusedPreviewFile(_)
        | ClickAction::CloseFocusedPreviewFiles => app.engine.view_mode
            == ViewMode::FocusedPreview,
        ClickAction::NavCandidateSelect(_)
        | ClickAction::NavCandidateGroupToggle(_)
        | ClickAction::NavCandidatesClose
        | ClickAction::NavCandidatesCapture => app.engine.overlays.nav_candidates,
        ClickAction::OpenMarkdownLink(_) => is_in(app.last_preview_rect, mouse),
        _ => false,
    }
}

/// Whether a right-click asks for the file tree's context menu.
pub open spec fn wants_menu(mouse: MouseEvent, app: TuiApp) -> bool {
    mouse.kind == MouseEventKind::Down(MouseButton::Right) && app.engine.active_tab == Tab::Files
        && !app.engine.overlays.tree_edit && app.engine.confirm is None
}

/// What a right-click on the Files tab asks for: it takes the menu down, or puts it up
/// over the row or the empty space of the tree that it hit.
pub open spec fn menu_click_effects(mouse: MouseEvent, app: TuiApp) -> Seq<Effect> {
    let at = (mouse.column, mouse.row);
    if app.engine.overlays.tree_context_menu {
        run_only(AppCommand::CloseTreeContextMenu)
    } else {
        match app.hit_registry.hit(mouse.column, mouse.row) {
            Some(ClickAction::TreeClick(idx)) => app.open_menu_effects(Some(idx), at),
            Some(ClickAction::TreeClearSelection) => app.open_menu_effects(None, at),
            _ => nothing(),
        }
    }
}

fn menu_click(mouse: MouseEvent, app: &TuiApp) -> (r: Vec<Effect>)
    ensures
        r@ == menu_click_effects(mouse, *app),
{
    if app.engine.overlays.tree_context_menu {
        return app.close_tree_context_menu();
    }
    match app.hit_registry.hit_test(mouse.column, mouse.row) {
        Some(ClickAction::TreeClick(idx)) => app.open_tree_context_menu(
            Some(idx),
            (mouse.column, mouse.row),
        ),
        Some(ClickAction::TreeClearSelection) => app.open_tree_context_menu(
            None,
            (mouse.column, mouse.row),
        ),
        _ => none(),
    }
}

/// Whether the event jumps to a definition from a text: a press with Control over it.
pub open spec fn jumps(mouse: MouseEvent, app: TuiApp) -> Option<Effect> {
    let anchor = NavAnchor::Mouse { col: mouse.column, row: mouse.row };
    if mouse.kind != MouseEventKind::Down(MouseButton::Left) || !mouse.modifiers.control {
        None
    } else if lies_in(app.last_preview_rect, mouse) {
        Some(Effect::GotoDefinition { in_diff: false, anchor })
    } else if lies_in(app.last_diff_rect, mouse) {
        Some(Effect::GotoDefinition { in_diff: true, anchor })
    } else {
        None
    }
}

/// What a mouse event does once no overlay owns the mouse and nothing is typed in the
/// file tree.
pub open spec fn content_mouse_spec(
    mouse: MouseEvent,
    app: TuiApp,
    now: Timestamp,
    probe: MouseProbe,
) -> (TuiApp, Seq<Effect>) {
    let hit = app.hit_registry.hit(mouse.column, mouse.row);
    let pressed = mouse.kind == MouseEventKind::Down(MouseButton::Left);
    if wants_menu(mouse, app) {
        (app, menu_click_effects(mouse, app))
    } else if pressed && hit is Some && lies_on_top(app, mouse, hit->0) {
        (app.after_action(hit->0), app.action_effects(hit->0))
    } else if app.engine.overlays.nav_candidates && mouse.kind == MouseEventKind::ScrollUp {
        (app, seq![Effect::NavScrollCandidates((-1) as i32)])
    } else if app.engine.overlays.nav_candidates && mouse.kind == MouseEventKind::ScrollDown {
        (app, seq![Effect::NavScrollCandidates(1)])
    } else if jumps(mouse, app) is Some {
        (app, seq![jumps(mouse, app)->0])
    } else {
        selecting_spec(mouse, app, now, probe)
    }
}

fn jump(mouse: &MouseEvent, app: &TuiApp) -> (r: Option<Effect>)
    ensures
        r == jumps(*mouse, *app),
{
    let anchor = NavAnchor::Mouse { col: mouse.column, row: mouse.row };
    let pressed = match mouse.kind {
        MouseEventKind::Down(MouseButton::Left) => true,
        _ => false,
    };
    if !pressed || !mouse.modifiers.control {
        return None;
    }
    if is_in(app.last_preview_rect, mouse) {
        Some(Effect::GotoDefinition { in_diff: false, anchor })
    } else if is_in(app.last_diff_rect, mouse) {
        Some(Effect::GotoDefinition { in_diff: true, anchor })
    } else {
        None
    }
}

/// Gives a mouse event to whatever is under it, once no overlay owns the mouse and
/// nothing is typed in the file tree.
pub fn handle_mouse_outside_editor(
    mouse: MouseEvent,
    app: &mut TuiApp,
    now: Timestamp,
    probe: &MouseProbe,
) -> (r: Vec<Effect>)
    requires
        graph_rows_fit(*old(app)),
    ensures
        *final(app) == content_mouse_spec(mouse, *old(app), now, *probe).0,
        r@ == content_mouse_spec(mouse, *old(app), now, *probe).1,
{
    if mouse.kind == MouseEventKind::Down(MouseButton::Right) && app.engine.active_tab == Tab::Files
        && !app.engine.overlays.tree_edit && app.engine.confirm.is_none() {
        return menu_click(mouse, app);
    }
    if mouse.kind == MouseEventKind::Down(MouseButton::Left) {
        if let Some(action) = app.hit_registry.hit_test(mouse.column, mouse.row) {
            if is_on_top(app, &mouse, &action) {
                return app.handle_action(action);
            }
        }
    }
    if app.engine.overlays.nav_candidates {
        if mouse.kind == MouseEventKind::ScrollUp {
            return one(Effect::NavScrollCandidates(-1));
        }
        if mouse.kind == MouseEventKind::ScrollDown {
            return one(Effect::NavScrollCandidates(1));
        }
    }
    if let Some(effect) = jump(&mouse, app) {
        return one(effect);
    }
    give_to_selections(mouse, app, now, probe)
}

/// Whether a button is pressed, held or let go.
pub open spec fn is_button_event(kind: MouseEventKind) -> bool {
    kind is Down || kind is Up || kind is Drag
}

/// What a mouse event asks for on the settings page: a press drops a half-typed editor
/// command, and a left press clicks what it hits.
pub open spec fn settings_mouse_spec(mouse: MouseEvent, app: TuiApp) -> (TuiApp, Seq<Effect>) {
    let cancel = if mouse.kind is Down && app.engine.settings.editing_editor_command {
        run_only(AppCommand::CancelSettingsEditorCommandEdit)
    } else {
        nothing()
    };
    match app.hit_registry.hit(mouse.column, mouse.row) {
        Some(action) if mouse.kind == MouseEventKind::Down(MouseButton::Left) => (
            app.after_action(action),
            cancel + app.action_effects(action),
        ),
        _ => (app, cancel),
    }
}

fn settings_mouse(mouse: MouseEvent, app: &mut TuiApp) -> (r: Vec<Effect>)
    ensures
        *final(app) == settings_mouse_spec(mouse, *old(app)).0,
        r@ == settings_mouse_spec(mouse, *old(app)).1,
{
    let pressed = match mouse.kind {
        MouseEventKind::Down(_) => true,
        _ => false,
    };
    let cancel = if pressed && app.engine.settings.editing_editor_command {
        run(AppCommand::CancelSettingsEditorCommandEdit)
    } else {
        none()
    };
    if mouse.kind == MouseEventKind::Down(MouseButton::Left) {
        if let Some(action) = app.hit_registry.hit_test(mouse.column, mouse.row) {
            let effects = app.handle_action(action);
            return join(cancel, effects);
        }
    }
    cancel
}

/// What a mouse event asks for while a question is up: a left press answers it, with
/// yes on the button that says so and with no anywhere else. Everything else is
/// swallowed.
pub open spec fn confirm_mouse_effects(mouse: MouseEvent, app: TuiApp) -> Seq<Effect> {
    if mouse.kind != MouseEventKind::Down(MouseButton::Left) {
        nothing()
    } else {
        match app.hit_registry.hit(mouse.column, mouse.row) {
            Some(ClickAction::ConfirmModalPrimary) => app.confirm_effects(),
            _ => run_only(AppCommand::DismissConfirm),
        }
    }
}

fn confirm_mouse(mouse: MouseEvent, app: &TuiApp) -> (r: Vec<Effect>)
    ensures
        r@ == confirm_mouse_effects(mouse, *app),
{
    if mouse.kind != MouseEventKind::Down(MouseButton::Left) {
        return none();
    }
    match app.hit_registry.hit_test(mouse.column, mouse.row) {
        Some(ClickAction::ConfirmModalPrimary) => app.fire_confirm_primary(),
        _ => app.fire_confirm_cancel(),
    }
}

/// What a mouse event does to a drag in the file tree, or nothing where it is none of
/// the drag's business.
pub open spec fn tree_drag_mouse(mouse: MouseEvent, app: TuiApp) -> Option<Seq<Effect>> {
    let mods = input_modifiers(mouse.modifiers);
    match mouse.kind {
        MouseEventKind::Drag(MouseButton::Left) => Some(
            seq![
                Effect::Run(
                    AppCommand::UpdateTreeDragHover(
                        tree_row_of(app.hit_registry.hit(mouse.column, mouse.row)),
                    ),
                ),
                Effect::Run(AppCommand::UpdateTreeDragModifiers(mods)),
            ],
        ),
        MouseEventKind::Up(MouseButton::Left) => Some(
            run_and_drain(AppCommand::DropTreeDrag { release_mods: mods }),
        ),
        MouseEventKind::Down(MouseButton::Right) => Some(run_only(AppCommand::CancelTreeDrag)),
        _ => None,
    }
}

fn drag_in_tree(mouse: MouseEvent, app: &TuiApp) -> (r: Option<Vec<Effect>>)
    ensures
        match r {
            Some(effects) => tree_drag_mouse(mouse, *app) == Some(effects@),
            None => tree_drag_mouse(mouse, *app) is None,
        },
{
    let mods = input_modifiers(mouse.modifiers);
    match mouse.kind {
        MouseEventKind::Drag(MouseButton::Left) => {
            let row = tree_row(app.hit_registry.hit_test(mouse.column, mouse.row));
            Some(
                two(
                    Effect::Run(AppCommand::UpdateTreeDragHover(row)),
                    Effect::Run(AppCommand::UpdateTreeDragModifiers(mods)),
                ),
            )
        },
        MouseEventKind::Up(MouseButton::Left) => Some(
            run_then_drain(AppCommand::DropTreeDrag { release_mods: mods }),
        ),
        MouseEventKind::Down(MouseButton::Right) => Some(app.cancel_tree_drag()),
        _ => None,
    }
}

/// What a mouse event does. A press while a name is typed in the file tree drops the
/// name first and goes on once the engine has done so.
pub open spec fn mouse_spec(mouse: MouseEvent, app: TuiApp, now: Timestamp, probe: MouseProbe) -> (
    TuiApp,
    Seq<Effect>,
) {
    let overlays = app.engine.overlays;
    if overlays.db_goto && is_button_event(mouse.kind) {
        (app, run_only(AppCommand::CloseDbGoto))
    } else if overlays.hosts_picker {
        picker_mouse_spec(Picker::Hosts, mouse, app, now)
    } else if overlays.graph_branch_picker {
        picker_mouse_spec(Picker::Branches, mouse, app, now)
    } else if overlays.global_search {
        global_search::handle_mouse_spec(mouse, app, now)
    } else if overlays.quick_open {
        quick_open::handle_mouse_spec(mouse, app, now)
    } else if overlays.place_mode {
        place_mouse_spec(mouse, app, now)
    } else if app.engine.view_mode == ViewMode::Settings {
        settings_mouse_spec(mouse, app)
    } else if overlays.paste_conflict {
        (app, nothing())
    } else if app.engine.confirm is Some {
        (app, confirm_mouse_effects(mouse, app))
    } else if overlays.tree_drag && tree_drag_mouse(mouse, app) is Some {
        (app, tree_drag_mouse(mouse, app)->0)
    } else if overlays.tree_edit && mouse.kind is Down {
        (
            app,
            seq![Effect::Run(AppCommand::CancelTreeEdit), Effect::Then(Resume::Mouse(mouse))],
        )
    } else {
        content_mouse_spec(mouse, app, now, probe)
    }
}

fn is_button(kind: MouseEventKind) -> (r: bool)
    ensures
        r == is_button_event(kind),
{
    match kind {
        MouseEventKind::Down(_) | MouseEventKind::Up(_) | MouseEventKind::Drag(_) => true,
        _ => false,
    }
}

/// Gives a mouse event to whoever owns the mouse.
pub fn handle_mouse(mouse: MouseEvent, app: &mut TuiApp, now: Timestamp, probe: &MouseProbe) -> (r:
    Vec<Effect>)
    requires
        graph_rows_fit(*old(app)),
    ensures
        *final(app) == mouse_spec(mouse, *old(app), now, *probe).0,
        r@ == mouse_spec(mouse, *old(app), now, *probe).1,
{
    let overlays = app.engine.overlays;
    if overlays.db_goto && is_button(mouse.kind) {
        return run(AppCommand::CloseDbGoto);
    }
    if overlays.hosts_picker {
        return handle_mouse_hosts_picker(mouse, app, now);
    }
    if overlays.graph_branch_picker {
        return handle_mouse_graph_branch_picker(mouse, app, now);
    }
    if overlays.global_search {
        return global_search::handle_mouse(mouse, app, now);
    }
    if overlays.quick_open {
        return quick_open::handle_mouse(mouse, app, now);
    }
    if overlays.place_mode {
        return handle_mouse_place_mode(mouse, app, now);
    }
    if app.engine.view_mode == ViewMode::Settings {
        return settings_mouse(mouse, app);
    }
    if overlays.paste_conflict {
        return none();
    }
    if app.engine.confirm.is_some() {
        return confirm_mouse(mouse, app);
    }
    if overlays.tree_drag {
        if let Some(effects) = drag_in_tree(mouse, app) {
            return effects;
        }
    }
    let pressed = match mouse.kind {
        MouseEventKind::Down(_) => true,
        _ => false,
    };
    if overlays.tree_edit && pressed {
        return two(Effect::Run(AppCommand::CancelTreeEdit), Effect::Then(Resume::Mouse(mouse)));
    }
    handle_mouse_outside_editor(mouse, app, now, probe)
}

/// Whether nothing that is drawn above a question owns the mouse.
pub open spec fn question_owns_mouse(app: TuiApp) -> bool {
    let overlays = app.engine.overlays;
    app.engine.confirm is Some && !overlays.db_goto && !overlays.hosts_picker
        && !overlays.graph_branch_picker && !overlays.global_search && !overlays.quick_open
        && !overlays.place_mode && app.engine.view_mode != ViewMode::Settings
        && !overlays.paste_conflict
}

/// While a question is up, the mouse can only answer it. Whatever the zones of the last
/// frame say, a press changes nothing underneath: unless it hits the button that says
/// yes, it says no.
pub proof fn clicks_only_answer_the_question(
    mouse: MouseEvent,
    app: TuiApp,
    now: Timestamp,
    probe: MouseProbe,
)
    requires
        question_owns_mouse(app),
    ensures
        mouse_spec(mouse, app, now, probe).0 == app,
        ({
            let effects = mouse_spec(mouse, app, now, probe).1;
            ||| effects == nothing()
            ||| effects == run_only(AppCommand::DismissConfirm)
            ||| effects == app.confirm_effects() && app.hit_registry.hit(mouse.column, mouse.row)
                == Some(ClickAction::ConfirmModalPrimary)
        }),
{
}

/// While a paste waits for the user's word, the mouse does nothing, so that no other
/// change of the file tree can race with it.
pub proof fn waiting_pastes_ignore_the_mouse(
    mouse: MouseEvent,
    app: TuiApp,
    now: Timestamp,
    probe: MouseProbe,
)
    requires
        app.engine.overlays.paste_conflict,
        !app.engine.overlays.db_goto,
        !app.engine.overlays.hosts_picker,
        !app.engine.overlays.graph_branch_picker,
        !app.engine.overlays.global_search,
        !app.engine.overlays.quick_open,
        !app.engine.overlays.place_mode,
        app.engine.view_mode != ViewMode::Settings,
    ensures
        mouse_spec(mouse, app, now, probe) == (app, nothing()),
{
}

/// However far the sidebar's edge is dragged, both sides keep a part of the screen.
pub proof fn dragged_edges_leave_both_sides(column: int, total_width: int)
    requires
        0 <= column,
        0 < total_width,
    ensures
        10 <= dragged_split(column, total_width) <= 80,
{
}

/// A press on what is drawn on top of a text clicks it, and never starts a selection
/// underneath.
pub proof fn clicks_on_top_select_nothing(
    mouse: MouseEvent,
    app: TuiApp,
    now: Timestamp,
    probe: MouseProbe,
    action: ClickAction,
)
    requires
        mouse.kind == MouseEventKind::Down(MouseButton::Left),
        app.hit_registry.hit(mouse.column, mouse.row) == Some(action),
        lies_on_top(app, mouse, action),
    ensures
        ({
            let after = content_mouse_spec(mouse, app, now, probe);
            &&& after.1 == app.action_effects(action)
            &&& after.0.preview_selection == app.preview_selection
            &&& after.0.diff_selection == app.diff_selection
            &&& after.0.commit_detail_selection == app.commit_detail_selection
        }),
{
}

/// While the list of places that a symbol leads to is up, a press on its frame does
/// nothing: it reaches neither the list's own rows nor what lies under it.
pub proof fn frames_of_the_list_keep_presses(
    mouse: MouseEvent,
    app: TuiApp,
    now: Timestamp,
    probe: MouseProbe,
)
    requires
        mouse.kind == MouseEventKind::Down(MouseButton::Left),
        app.engine.overlays.nav_candidates,
        app.hit_registry.hit(mouse.column, mouse.row) == Some(PeekAction::Capture.click()),
    ensures
        content_mouse_spec(mouse, app, now, probe) == (app, nothing()),
{
}

/// What lies on top of a text: each button of the find widget while it is open, the list of
/// files while a preview has the whole screen, each row and the frame of the list of places
/// while it is up, and a link of the page under the cursor. Nothing else does.
pub proof fn what_is_drawn_on_top_is_on_top(
    app: TuiApp,
    mouse: MouseEvent,
    action: ClickAction,
    idx: usize,
    target: String,
)
    ensures
        lies_on_top(app, mouse, ClickAction::FindWidgetClose) <==> app.engine.find_widget.active,
        lies_on_top(app, mouse, ClickAction::FindWidgetNext) <==> app.engine.find_widget.active,
        lies_on_top(app, mouse, ClickAction::FindWidgetPrev) <==> app.engine.find_widget.active,
        lies_on_top(app, mouse, ClickAction::FindWidgetToggleCase)
            <==> app.engine.find_widget.active,
        lies_on_top(app, mouse, ClickAction::FindWidgetToggleWord)
            <==> app.engine.find_widget.active,
        lies_on_top(app, mouse, ClickAction::FindWidgetToggleRegex)
            <==> app.engine.find_widget.active,
        lies_on_top(app, mouse, ClickAction::ToggleFocusedPreviewFiles) <==> app.engine.view_mode
            == ViewMode::FocusedPreview,
        lies_on_top(app, mouse, ClickAction::PickFocusedPreviewFile(idx)) <==> app.engine.view_mode
            == ViewMode::FocusedPreview,
        lies_on_top(app, mouse, ClickAction::CloseFocusedPreviewFiles) <==> app.engine.view_mode
            == ViewMode::FocusedPreview,
        lies_on_top(app, mouse, ClickAction::NavCandidateSelect(idx))
            <==> app.engine.overlays.nav_candidates,
        lies_on_top(app, mouse, ClickAction::NavCandidateGroupToggle(idx))
            <==> app.engine.overlays.nav_candidates,
        lies_on_top(app, mouse, ClickAction::NavCandidatesClose)
            <==> app.engine.overlays.nav_candidates,
        lies_on_top(app, mouse, ClickAction::NavCandidatesCapture)
            <==> app.engine.overlays.nav_candidates,
        lies_on_top(app, mouse, ClickAction::OpenMarkdownLink(target))
            <==> app.last_preview_rect is Some && app.last_preview_rect->0.holds(
            mouse.column as int,
            mouse.row as int,
        ),
        !app.engine.find_widget.active && app.engine.view_mode != ViewMode::FocusedPreview
            && !app.engine.overlays.nav_candidates && !(action is OpenMarkdownLink)
            ==> !lies_on_top(app, mouse, action),
{
}

} // verus!
