//! Selecting text with the mouse, in the preview, a diff and a commit's details.

use crate::app::TuiApp;
use crate::command::{none, nothing, run, run_only, AppCommand, Effect, Toast, ToastText};
use crate::engine::{DiffSide, Panel, PreviewKind};
use crate::event::{MouseButton, MouseEvent, MouseEventKind};
use crate::geometry::{point_in_rect, Rect};
use crate::input::scrolling::{
    diff_extended, extend_diff_drag, extend_preview_drag, extend_selection, extended,
};
use crate::selection::{
    click_number, count_click, mouse_to_text_cell, start_selection, started_selection, text_cell,
    ClickState, DiffHover, DiffSelection, PreviewSelection, TextPick,
};
use crate::time::Timestamp;
use vstd::prelude::*;

verus! {

/// What of a diff is under the cursor: the text and the side that it is on.
#[derive(Clone, Copy, Debug, PartialEq, Eq, Structural)]
pub struct DiffPick {
    pub pick: TextPick,
    pub side: DiffSide,
}

/// What whoever holds the texts finds at the cell of a mouse event.
#[derive(Debug)]
pub struct MouseProbe {
    /// The terminal's width, where it tells.
    pub terminal_width: Option<u16>,
    /// The preview's text there.
    pub preview_pick: Option<TextPick>,
    /// The diff's text there.
    pub diff_pick: Option<DiffPick>,
    /// The diff's text at the row of the event and at `diff_drag_column` of its column.
    pub diff_drag: Option<(usize, usize)>,
    /// The text of the commit's details there.
    pub commit_pick: Option<TextPick>,
    /// The nearest text of the commit's details.
    pub commit_drag: Option<(usize, usize)>,
    /// The text of the selection that is being dragged. Empty where nothing is.
    pub selected_text: String,
    /// Whether the cursor has moved far enough from its press to begin a drag.
    pub starts_drag: bool,
    /// The identifier of the preview there, as a row and its ends.
    pub preview_identifier: Option<(usize, usize, usize)>,
    /// The identifier of the diff there.
    pub diff_identifier: Option<DiffHover>,
}

/// The cell of the preview's text under a cell of the screen: a row of the text and a
/// column of its display. Where no text is shown there is none.
pub open spec fn preview_cell(app: TuiApp, col: u16, row: u16) -> Option<(int, int)> {
    let preview = app.engine.preview;
    let origin = match preview.kind {
        PreviewKind::Markdown => app.last_markdown_content_origin,
        PreviewKind::Text => match app.last_preview_content_origin {
            Some(o) => Some((o.0, o.1)),
            None => None,
        },
        _ => None,
    };
    match origin {
        Some(o) => if preview.row_count > 0 {
            Some(
                text_cell(
                    preview.scroll as int,
                    preview.h_scroll as int,
                    preview.row_count as int,
                    o,
                    col as int,
                    row as int,
                ),
            )
        } else {
            None
        },
        None => None,
    }
}

/// The cell of the plain text in the preview under a cell of the screen, where the text
/// is drawn from `origin` on.
pub fn mouse_to_file_coord(app: &TuiApp, col: u16, row: u16, origin: (u16, u16, u16)) -> (r: Option<
    (usize, usize),
>)
    requires
        app.engine.preview.scroll + u16::MAX <= usize::MAX,
        app.engine.preview.h_scroll + u16::MAX <= usize::MAX,
    ensures
        match r {
            Some(cell) => app.engine.preview.kind == PreviewKind::Text
                && app.engine.preview.row_count > 0 && (cell.0 as int, cell.1 as int) == text_cell(
                app.engine.preview.scroll as int,
                app.engine.preview.h_scroll as int,
                app.engine.preview.row_count as int,
                (origin.0, origin.1),
                col as int,
                row as int,
            ),
            None => app.engine.preview.kind != PreviewKind::Text || app.engine.preview.row_count
                == 0,
        },
{
    let preview = &app.engine.preview;
    if preview.kind != PreviewKind::Text {
        return None;
    }
    mouse_to_text_cell(
        preview.scroll,
        preview.h_scroll,
        preview.row_count,
        (origin.0, origin.1),
        col,
        row,
    )
}

/// The cell of the preview's text under a cell of the screen.
pub fn mouse_to_preview_coord(app: &TuiApp, col: u16, row: u16) -> (r: Option<(usize, usize)>)
    requires
        app.engine.preview.scroll + u16::MAX <= usize::MAX,
        app.engine.preview.h_scroll + u16::MAX <= usize::MAX,
    ensures
        match r {
            Some(cell) => preview_cell(*app, col, row) == Some((cell.0 as int, cell.1 as int)),
            None => preview_cell(*app, col, row) is None,
        },
{
    let preview = &app.engine.preview;
    match preview.kind {
        PreviewKind::Markdown => match app.last_markdown_content_origin {
            Some(origin) => mouse_to_text_cell(
                preview.scroll,
                preview.h_scroll,
                preview.row_count,
                origin,
                col,
                row,
            ),
            None => None,
        },
        PreviewKind::Text => match app.last_preview_content_origin {
            Some(origin) => mouse_to_file_coord(app, col, row, origin),
            None => None,
        },
        _ => None,
    }
}

/// Whether the cell lies in the rectangle, where there is one.
pub open spec fn lies_in(rect: Option<Rect>, mouse: MouseEvent) -> bool {
    match rect {
        Some(r) => r.holds(mouse.column as int, mouse.row as int),
        None => false,
    }
}

/// Whether the event's cell lies in the rectangle.
pub fn is_in(rect: Option<Rect>, mouse: &MouseEvent) -> (r: bool)
    ensures
        r == lies_in(rect, *mouse),
{
    match rect {
        Some(area) => point_in_rect(area, mouse.column, mouse.row),
        None => false,
    }
}

/// The press as the next click counter.
pub open spec fn counted(
    last: Option<ClickState>,
    now: Timestamp,
    mouse: MouseEvent,
) -> ClickState {
    ClickState {
        at: now,
        column: mouse.column,
        row: mouse.row,
        count: click_number(last, now, mouse.column, mouse.row),
    }
}

fn count_press(last: Option<ClickState>, now: Timestamp, mouse: &MouseEvent) -> (r: ClickState)
    ensures
        r == counted(last, now, *mouse),
{
    let count: u8 = count_click(last, now, mouse.column, mouse.row);
    ClickState { at: now, column: mouse.column, row: mouse.row, count }
}

/// What copying a selected text asks for. An empty one is not copied.
pub open spec fn copy_effects(text: String) -> Seq<Effect> {
    if text@.len() == 0 {
        nothing()
    } else {
        run_only(
            AppCommand::CopyToClipboard {
                text,
                success: Some(Toast::info(ToastText::ClipboardCopied)),
                failure: Toast::error(ToastText::ClipboardCopyFailed),
            },
        )
    }
}

/// Copies a selected text.
pub fn dispatch_clipboard_copy(text: String) -> (r: Vec<Effect>)
    ensures
        r@ == copy_effects(text),
{
    if text.is_empty() {
        return none();
    }
    run(
        AppCommand::CopyToClipboard {
            text,
            success: Some(Toast::info(ToastText::ClipboardCopied)),
            failure: Toast::error(ToastText::ClipboardCopyFailed),
        },
    )
}

/// What a mouse event does to a selection: the next state, what it asks for, and
/// whether it is done with.
pub struct Selecting {
    pub app: TuiApp,
    pub effects: Seq<Effect>,
    pub done: bool,
}

/// The event is left to others.
pub open spec fn left_alone(app: TuiApp) -> Selecting {
    Selecting { app, effects: nothing(), done: false }
}

/// A press, a drag or a release of the left button over the preview's text. The first
/// click starts a caret, the second selects the word and the third the line; a release
/// copies what is selected.
pub open spec fn preview_selecting(
    mouse: MouseEvent,
    app: TuiApp,
    now: Timestamp,
    probe: MouseProbe,
) -> Selecting {
    let dragging = match app.preview_selection {
        Some(sel) => sel.dragging,
        None => false,
    };
    match mouse.kind {
        MouseEventKind::Down(MouseButton::Left) => if !lies_in(app.last_preview_rect, mouse) {
            left_alone(app)
        } else {
            match probe.preview_pick {
                None => Selecting {
                    app,
                    effects: run_only(AppCommand::SetActivePanel(Panel::Diff)),
                    done: false,
                },
                Some(pick) => {
                    let click = counted(app.preview_click_state, now, mouse);
                    Selecting {
                        app: TuiApp {
                            preview_click_state: Some(click),
                            preview_selection: Some(started_selection(click.count, pick)),
                            last_drag_mouse: Some((mouse.column, mouse.row)),
                            preview_autoscroll_at: None,
                            ..app
                        },
                        effects: run_only(AppCommand::SetActivePanel(Panel::Diff)),
                        done: true,
                    }
                },
            }
        },
        MouseEventKind::Drag(MouseButton::Left) if dragging => Selecting {
            app: TuiApp {
                last_drag_mouse: Some((mouse.column, mouse.row)),
                preview_selection: extended(
                    app.preview_selection,
                    place_of(probe.preview_pick),
                ),
                ..app
            },
            effects: nothing(),
            done: true,
        },
        MouseEventKind::Up(MouseButton::Left) if dragging => Selecting {
            app: TuiApp {
                preview_selection: released(app.preview_selection),
                last_drag_mouse: None,
                preview_autoscroll_at: None,
                ..app
            },
            effects: if app.preview_selection->0.is_empty() || !app.engine.preview.is_text() {
                nothing()
            } else {
                copy_effects(probe.selected_text)
            },
            done: true,
        },
        _ => left_alone(app),
    }
}

/// The place of what is under the cursor.
pub open spec fn place_of(pick: Option<TextPick>) -> Option<(usize, usize)> {
    match pick {
        Some(p) => Some((p.row, p.byte)),
        None => None,
    }
}

/// The selection once its drag is over.
pub open spec fn released(sel: Option<PreviewSelection>) -> Option<PreviewSelection> {
    match sel {
        Some(s) => Some(PreviewSelection { dragging: false, ..s }),
        None => None,
    }
}

fn release(sel: PreviewSelection) -> (r: PreviewSelection)
    ensures
        Some(r) == released(Some(sel)),
{
    PreviewSelection { anchor: sel.anchor, active: sel.active, dragging: false }
}

fn pick_place(pick: Option<TextPick>) -> (r: Option<(usize, usize)>)
    ensures
        r == place_of(pick),
{
    match pick {
        Some(p) => Some((p.row, p.byte)),
        None => None,
    }
}

/// Selects in the preview. The second part of the result tells whether the event is
/// done with.
pub fn handle_preview_selection(
    mouse: &MouseEvent,
    app: &mut TuiApp,
    now: Timestamp,
    probe: &MouseProbe,
) -> (r: (Vec<Effect>, bool))
    ensures
        *final(app) == preview_selecting(*mouse, *old(app), now, *probe).app,
        r.0@ == preview_selecting(*mouse, *old(app), now, *probe).effects,
        r.1 == preview_selecting(*mouse, *old(app), now, *probe).done,
{
    match mouse.kind {
        MouseEventKind::Down(MouseButton::Left) => {
            if !is_in(app.last_preview_rect, mouse) {
                return (none(), false);
            }
            let focus = app.set_active_panel(Panel::Diff);
            match probe.preview_pick {
                None => (focus, false),
                Some(pick) => {
                    let click = count_press(app.preview_click_state, now, mouse);
                    app.preview_click_state = Some(click);
                    app.preview_selection = Some(start_selection(click.count, pick));
                    app.last_drag_mouse = Some((mouse.column, mouse.row));
                    app.preview_autoscroll_at = None;
                    (focus, true)
                },
            }
        },
        MouseEventKind::Drag(MouseButton::Left) => {
            let dragging = match app.preview_selection {
                Some(sel) => sel.dragging,
                None => false,
            };
            if !dragging {
                return (none(), false);
            }
            app.last_drag_mouse = Some((mouse.column, mouse.row));
            extend_preview_drag(app, pick_place(probe.preview_pick));
            (none(), true)
        },
        MouseEventKind::Up(MouseButton::Left) => {
            let sel = match app.preview_selection {
                Some(sel) => sel,
                None => return (none(), false),
            };
            if !sel.dragging {
                return (none(), false);
            }
            app.preview_selection = Some(release(sel));
            app.last_drag_mouse = None;
            app.preview_autoscroll_at = None;
            if sel.is_empty() || !app.engine.preview.is_text() {
                (none(), true)
            } else {
                (dispatch_clipboard_copy(probe.selected_text.clone()), true)
            }
        },
        _ => (none(), false),
    }
}

/// A press, a drag or a release of the left button over a diff. A selection stays on
/// the side that it began on.
pub open spec fn diff_selecting(
    mouse: MouseEvent,
    app: TuiApp,
    now: Timestamp,
    probe: MouseProbe,
) -> Selecting {
    let dragging = match app.diff_selection {
        Some(sel) => sel.sel.dragging,
        None => false,
    };
    if app.last_diff_rect is None {
        left_alone(app)
    } else {
        match mouse.kind {
            MouseEventKind::Down(MouseButton::Left) => match (app.last_diff_hit, probe.diff_pick) {
                (Some(hit), Some(at)) => if lies_in(app.last_diff_rect, mouse) && hit.row_count > 0 {
                    let click = counted(app.diff_click_state, now, mouse);
                    Selecting {
                        app: TuiApp {
                            diff_click_state: Some(click),
                            diff_selection: Some(
                                DiffSelection {
                                    sel: started_selection(click.count, at.pick),
                                    side: at.side,
                                },
                            ),
                            last_drag_mouse: Some((mouse.column, mouse.row)),
                            diff_autoscroll_at: None,
                            ..app
                        },
                        effects: run_only(AppCommand::SetActivePanel(Panel::Diff)),
                        done: true,
                    }
                } else {
                    left_alone(app)
                },
                _ => left_alone(app),
            },
            MouseEventKind::Drag(MouseButton::Left) if dragging => Selecting {
                app: TuiApp {
                    last_drag_mouse: Some((mouse.column, mouse.row)),
                    diff_selection: if app.last_diff_hit is Some {
                        diff_extended(app.diff_selection, probe.diff_drag)
                    } else {
                        app.diff_selection
                    },
                    ..app
                },
                effects: nothing(),
                done: true,
            },
            MouseEventKind::Up(MouseButton::Left) if dragging => Selecting {
                app: TuiApp {
                    diff_selection: Some(
                        DiffSelection {
                            sel: released(Some(app.diff_selection->0.sel))->0,
                            side: app.diff_selection->0.side,
                        },
                    ),
                    last_drag_mouse: None,
                    diff_autoscroll_at: None,
                    ..app
                },
                effects: if app.diff_selection->0.sel.is_empty() || app.last_diff_hit is None {
                    nothing()
                } else {
                    copy_effects(probe.selected_text)
                },
                done: true,
            },
            _ => left_alone(app),
        }
    }
}

fn press_on_diff(mouse: &MouseEvent, app: &mut TuiApp, now: Timestamp, probe: &MouseProbe) -> (r: (
    Vec<Effect>,
    bool,
))
    requires
        mouse.kind == MouseEventKind::Down(MouseButton::Left),
        old(app).last_diff_rect is Some,
    ensures
        *final(app) == diff_selecting(*mouse, *old(app), now, *probe).app,
        r.0@ == diff_selecting(*mouse, *old(app), now, *probe).effects,
        r.1 == diff_selecting(*mouse, *old(app), now, *probe).done,
{
    if !is_in(app.last_diff_rect, mouse) {
        return (none(), false);
    }
    let hit = match app.last_diff_hit {
        Some(hit) => hit,
        None => return (none(), false),
    };
    if hit.row_count == 0 {
        return (none(), false);
    }
    let at = match probe.diff_pick {
        Some(at) => at,
        None => return (none(), false),
    };
    let click = count_press(app.diff_click_state, now, mouse);
    app.diff_click_state = Some(click);
    app.diff_selection = Some(
        DiffSelection { sel: start_selection(click.count, at.pick), side: at.side },
    );
    app.last_drag_mouse = Some((mouse.column, mouse.row));
    app.diff_autoscroll_at = None;
    (app.set_active_panel(Panel::Diff), true)
}

/// Selects in a diff. The second part of the result tells whether the event is done
/// with.
pub fn handle_diff_selection(
    mouse: &MouseEvent,
    app: &mut TuiApp,
    now: Timestamp,
    probe: &MouseProbe,
) -> (r: (Vec<Effect>, bool))
    ensures
        *final(app) == diff_selecting(*mouse, *old(app), now, *probe).app,
        r.0@ == diff_selecting(*mouse, *old(app), now, *probe).effects,
        r.1 == diff_selecting(*mouse, *old(app), now, *probe).done,
{
    if app.last_diff_rect.is_none() {
        return (none(), false);
    }
    match mouse.kind {
        MouseEventKind::Down(MouseButton::Left) => press_on_diff(mouse, app, now, probe),
        MouseEventKind::Drag(MouseButton::Left) => {
            let dragging = match app.diff_selection {
                Some(selection) => selection.sel.dragging,
                None => false,
            };
            if !dragging {
                return (none(), false);
            }
            app.last_drag_mouse = Some((mouse.column, mouse.row));
            if app.last_diff_hit.is_some() {
                extend_diff_drag(app, probe.diff_drag);
            }
            (none(), true)
        },
        MouseEventKind::Up(MouseButton::Left) => {
            let selection = match app.diff_selection {
                Some(selection) => selection,
                None => return (none(), false),
            };
            if !selection.sel.dragging {
                return (none(), false);
            }
            app.diff_selection = Some(
                DiffSelection { sel: release(selection.sel), side: selection.side },
            );
            app.last_drag_mouse = None;
            app.diff_autoscroll_at = None;
            if selection.sel.is_empty() || app.last_diff_hit.is_none() {
                (none(), true)
            } else {
                (dispatch_clipboard_copy(probe.selected_text.clone()), true)
            }
        },
        _ => (none(), false),
    }
}

/// The column that a press on a commit's details moves the focus to: their own where the
/// graph has three columns, and the right one where it has two.
#[verifier::allow_in_spec]
pub fn commit_detail_panel(app: &TuiApp) -> Panel
    returns
        (if app.graph_uses_three_col() {
            Panel::Commit
        } else {
            Panel::Diff
        }),
{
    if app.graph_uses_three_col() {
        Panel::Commit
    } else {
        Panel::Diff
    }
}

/// A press, a drag or a release of the left button over a commit's details.
pub open spec fn commit_selecting(
    mouse: MouseEvent,
    app: TuiApp,
    now: Timestamp,
    probe: MouseProbe,
) -> Selecting {
    let dragging = match app.commit_detail_selection {
        Some(sel) => sel.dragging,
        None => false,
    };
    if app.last_commit_detail_rect is None {
        left_alone(app)
    } else {
        match mouse.kind {
            MouseEventKind::Down(MouseButton::Left) => match probe.commit_pick {
                Some(pick) => if lies_in(app.last_commit_detail_rect, mouse)
                    && app.has_commit_detail_hit {
                    let click = counted(app.commit_detail_click_state, now, mouse);
                    Selecting {
                        app: TuiApp {
                            commit_detail_click_state: Some(click),
                            commit_detail_selection: Some(started_selection(click.count, pick)),
                            ..app
                        },
                        effects: run_only(
                            AppCommand::SetActivePanel(commit_detail_panel(&app)),
                        ),
                        done: true,
                    }
                } else {
                    left_alone(app)
                },
                None => left_alone(app),
            },
            MouseEventKind::Drag(MouseButton::Left) if dragging => Selecting {
                app: TuiApp {
                    commit_detail_selection: if app.has_commit_detail_hit {
                        extended(app.commit_detail_selection, probe.commit_drag)
                    } else {
                        app.commit_detail_selection
                    },
                    ..app
                },
                effects: nothing(),
                done: true,
            },
            MouseEventKind::Up(MouseButton::Left) if dragging => Selecting {
                app: TuiApp {
                    commit_detail_selection: released(app.commit_detail_selection),
                    ..app
                },
                effects: if app.commit_detail_selection->0.is_empty() || !app.has_commit_detail_hit {
                    nothing()
                } else {
                    copy_effects(probe.selected_text)
                },
                done: true,
            },
            _ => left_alone(app),
        }
    }
}

/// Selects in a commit's details. The second part of the result tells whether the event
/// is done with.
pub fn handle_commit_detail_selection(
    mouse: &MouseEvent,
    app: &mut TuiApp,
    now: Timestamp,
    probe: &MouseProbe,
) -> (r: (Vec<Effect>, bool))
    ensures
        *final(app) == commit_selecting(*mouse, *old(app), now, *probe).app,
        r.0@ == commit_selecting(*mouse, *old(app), now, *probe).effects,
        r.1 == commit_selecting(*mouse, *old(app), now, *probe).done,
{
    if app.last_commit_detail_rect.is_none() {
        return (none(), false);
    }
    match mouse.kind {
        MouseEventKind::Down(MouseButton::Left) => {
            if !is_in(app.last_commit_detail_rect, mouse) || !app.has_commit_detail_hit {
                return (none(), false);
            }
            let pick = match probe.commit_pick {
                Some(pick) => pick,
                None => return (none(), false),
            };
            let focus = app.set_active_panel(commit_detail_panel(app));
            let click = count_press(app.commit_detail_click_state, now, mouse);
            app.commit_detail_click_state = Some(click);
            app.commit_detail_selection = Some(start_selection(click.count, pick));
            (focus, true)
        },
        MouseEventKind::Drag(MouseButton::Left) => {
            let dragging = match app.commit_detail_selection {
                Some(sel) => sel.dragging,
                None => false,
            };
            if !dragging {
                return (none(), false);
            }
            if app.has_commit_detail_hit {
                app.commit_detail_selection =
                extend_selection(app.commit_detail_selection, probe.commit_drag);
            }
            (none(), true)
        },
        MouseEventKind::Up(MouseButton::Left) => {
            let sel = match app.commit_detail_selection {
                Some(sel) => sel,
                None => return (none(), false),
            };
            if !sel.dragging {
                return (none(), false);
            }
            app.commit_detail_selection = Some(release(sel));
            if sel.is_empty() || !app.has_commit_detail_hit {
                (none(), true)
            } else {
                (dispatch_clipboard_copy(probe.selected_text.clone()), true)
            }
        },
        _ => (none(), false),
    }
}

/// Once a drag has begun in the preview, every drag and the release belong to it,
/// wherever the cursor is.
pub proof fn drags_keep_the_mouse(mouse: MouseEvent, app: TuiApp, now: Timestamp, probe: MouseProbe)
    requires
        mouse.kind == MouseEventKind::Drag(MouseButton::Left) || mouse.kind == MouseEventKind::Up(
            MouseButton::Left,
        ),
    ensures
        app.preview_selection matches Some(sel) ==> sel.dragging ==> preview_selecting(
            mouse,
            app,
            now,
            probe,
        ).done,
        app.last_diff_rect is Some ==> (app.diff_selection matches Some(sel) ==> sel.sel.dragging
            ==> diff_selecting(mouse, app, now, probe).done),
        app.last_commit_detail_rect is Some ==> (app.commit_detail_selection matches Some(sel)
            ==> sel.dragging ==> commit_selecting(mouse, app, now, probe).done),
{
}

/// A release ends the drag: the same selection does not take another.
pub proof fn releases_end_the_drag(mouse: MouseEvent, app: TuiApp, now: Timestamp, probe: MouseProbe)
    requires
        mouse.kind == MouseEventKind::Up(MouseButton::Left),
    ensures
        ({
            let once = preview_selecting(mouse, app, now, probe);
            once.done ==> !preview_selecting(mouse, once.app, now, probe).done
        }),
        ({
            let once = diff_selecting(mouse, app, now, probe);
            once.done ==> !diff_selecting(mouse, once.app, now, probe).done
        }),
        ({
            let once = commit_selecting(mouse, app, now, probe);
            once.done ==> !commit_selecting(mouse, once.app, now, probe).done
        }),
{
}

/// A drag in a diff never changes the side of its selection.
pub proof fn drags_keep_their_side(mouse: MouseEvent, app: TuiApp, now: Timestamp, probe: MouseProbe)
    requires
        mouse.kind != MouseEventKind::Down(MouseButton::Left),
    ensures
        app.diff_selection matches Some(before) ==> diff_selecting(
            mouse,
            app,
            now,
            probe,
        ).app.diff_selection matches Some(after) && after.side == before.side && after.sel.anchor
            == before.sel.anchor,
{
}

} // verus!
