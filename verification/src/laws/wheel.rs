//! What a turn of the wheel scrolls, and how far.

use crate::app::TuiApp;
use crate::command::{AppCommand, Effect};
use crate::engine::{Panel, Tab, ViewMode};
use crate::event::{MouseButton, MouseEvent, MouseEventKind};
use crate::input::dragging::MouseProbe;
use crate::input::mouse::{mouse_spec, panel_under};
use crate::scroll::{AxisLock, ScrollPacer};
use crate::time::Timestamp;
use vstd::prelude::*;

verus! {

/// Whether the panels of the tab have the mouse: nothing that is up takes it from them.
pub open spec fn panels_have_the_mouse(app: TuiApp) -> bool {
    let overlays = app.engine.overlays;
    &&& !overlays.db_goto && !overlays.hosts_picker && !overlays.graph_branch_picker
    &&& !overlays.global_search && !overlays.quick_open && !overlays.place_mode
    &&& !overlays.paste_conflict && !overlays.tree_drag && !overlays.tree_edit
    &&& !overlays.nav_candidates && app.engine.confirm is None
    &&& app.engine.view_mode != ViewMode::Settings
}

/// The terminal's width, or eighty columns where it does not tell.
pub open spec fn told_width(probe: MouseProbe) -> u16 {
    match probe.terminal_width {
        Some(width) => width,
        None => 80,
    }
}

/// What a turn of the wheel by `lines` rows scrolls, where it is over `panel`.
pub open spec fn scrolls_panel(
    effects: Seq<Effect>,
    app: TuiApp,
    panel: Panel,
    lines: i32,
    now: Timestamp,
) -> bool {
    match (app.engine.active_tab, panel) {
        (Tab::Git, Panel::Files) => effects == seq![Effect::GitStatusScroll(lines)],
        (Tab::Git, Panel::Diff) => effects == seq![Effect::Run(AppCommand::DiffScroll(lines))],
        (Tab::Files, Panel::Files) => effects == seq![
            Effect::Run(AppCommand::ScrollFileTree(lines)),
        ],
        (Tab::Files, Panel::Diff) => effects == seq![
            Effect::Run(AppCommand::PreviewScroll(lines)),
        ],
        (Tab::Search, Panel::Files) => effects == seq![
            Effect::Run(
                AppCommand::MoveGlobalSearchSelection {
                    delta: lines,
                    visible_rows: app.layout.global_search_last_view_h as usize,
                },
            ),
            Effect::Run(AppCommand::ScheduleGlobalSearchPreviewSync { now }),
        ],
        (Tab::Search, Panel::Diff) => effects == seq![
            Effect::Run(AppCommand::PreviewScroll(lines)),
        ],
        (Tab::Graph, Panel::Files) => effects == seq![Effect::GitGraphScroll(lines)],
        (Tab::Graph, Panel::Commit) => effects == seq![Effect::CommitDetailScroll(lines)],
        (Tab::Graph, Panel::Diff) => if app.graph_uses_three_col() {
            effects == seq![
                Effect::Run(AppCommand::ScrollCommitDetailFileDiffVertical(lines)),
            ]
        } else {
            effects == seq![Effect::CommitDetailScroll(lines)]
        },
        _ => false,
    }
}

/// A turn of the wheel scrolls the panel that a press at the same column would give the focus
/// to, up or down as it was turned, and leaves the focus where it is.
#[verifier::rlimit(40)]
pub proof fn the_wheel_scrolls_the_panel_under_it(
    mouse: MouseEvent,
    app: TuiApp,
    now: Timestamp,
    probe: MouseProbe,
)
    requires
        panels_have_the_mouse(app),
        app.engine.view_mode == ViewMode::Main,
        !mouse.modifiers.shift,
        !app.horizontal_scroll_lock.is_locked(now),
    ensures
        ({
            let turned = mouse_spec(mouse, app, now, probe);
            let panel = panel_under(app, mouse.column, told_width(probe));
            let rows = app.vertical_scroll_pacer.step_size(now);
            &&& mouse.kind == MouseEventKind::ScrollUp ==> scrolls_panel(
                turned.1,
                app,
                panel,
                (-rows) as i32,
                now,
            )
            &&& mouse.kind == MouseEventKind::ScrollDown ==> scrolls_panel(
                turned.1,
                app,
                panel,
                rows as i32,
                now,
            )
            &&& mouse.kind == MouseEventKind::ScrollUp || mouse.kind == MouseEventKind::ScrollDown
                ==> turned.0 == (TuiApp {
                vertical_scroll_lock: app.vertical_scroll_lock.observed(now),
                vertical_scroll_pacer: app.vertical_scroll_pacer.stepped(now),
                ..app
            })
        }),
{
}

/// On the Git tab the wheel scrolls the list of files left of the edge and the diff right of
/// it; on the Files tab the tree and the preview; on the Search tab the hits and the preview;
/// and on the Graph tab the graph, the details of the commit, and the diff of its file where
/// that has a column of its own.
pub proof fn the_wheel_turns_by_column(
    mouse: MouseEvent,
    app: TuiApp,
    now: Timestamp,
    probe: MouseProbe,
)
    requires
        panels_have_the_mouse(app),
        app.engine.view_mode == ViewMode::Main,
        mouse.kind == MouseEventKind::ScrollDown,
        !mouse.modifiers.shift,
        !app.horizontal_scroll_lock.is_locked(now),
    ensures
        ({
            let effects = mouse_spec(mouse, app, now, probe).1;
            let left = mouse.column < app.sidebar(told_width(probe));
            let rows = app.vertical_scroll_pacer.step_size(now) as i32;
            let tab = app.engine.active_tab;
            &&& tab == Tab::Git && left ==> effects == seq![Effect::GitStatusScroll(rows)]
            &&& tab == Tab::Git && !left ==> effects == seq![
                Effect::Run(AppCommand::DiffScroll(rows)),
            ]
            &&& tab == Tab::Files && left ==> effects == seq![
                Effect::Run(AppCommand::ScrollFileTree(rows)),
            ]
            &&& (tab == Tab::Files || tab == Tab::Search) && !left ==> effects == seq![
                Effect::Run(AppCommand::PreviewScroll(rows)),
            ]
            &&& tab == Tab::Graph && left ==> effects == seq![Effect::GitGraphScroll(rows)]
            &&& tab == Tab::Graph && !left && !app.graph_uses_three_col() ==> effects == seq![
                Effect::CommitDetailScroll(rows),
            ]
        }),
{
    the_wheel_scrolls_the_panel_under_it(mouse, app, now, probe);
}

/// While a preview has the whole screen, the wheel scrolls it wherever it is turned.
#[verifier::rlimit(40)]
pub proof fn the_wheel_scrolls_the_whole_screen(
    mouse: MouseEvent,
    app: TuiApp,
    now: Timestamp,
    probe: MouseProbe,
)
    requires
        panels_have_the_mouse(app),
        app.engine.view_mode == ViewMode::FocusedPreview,
        !mouse.modifiers.shift,
        !app.horizontal_scroll_lock.is_locked(now),
    ensures
        ({
            let effects = mouse_spec(mouse, app, now, probe).1;
            let rows = app.vertical_scroll_pacer.step_size(now);
            &&& mouse.kind == MouseEventKind::ScrollUp ==> scrolls_panel(
                effects,
                app,
                Panel::Diff,
                (-rows) as i32,
                now,
            )
            &&& mouse.kind == MouseEventKind::ScrollDown ==> scrolls_panel(
                effects,
                app,
                Panel::Diff,
                rows as i32,
                now,
            )
        }),
{
}

/// The wheel turned sideways, or turned with Shift held, moves what is under it sideways: left
/// for the wheel turned left or up, right for the wheel turned right or down.
#[verifier::rlimit(40)]
pub proof fn the_wheel_goes_sideways(
    mouse: MouseEvent,
    app: TuiApp,
    now: Timestamp,
    probe: MouseProbe,
)
    requires
        panels_have_the_mouse(app),
        !app.vertical_scroll_lock.is_locked(now),
    ensures
        ({
            let turned = mouse_spec(mouse, app, now, probe);
            let columns = app.horizontal_scroll_pacer.step_size(now);
            let back = mouse.kind == MouseEventKind::ScrollLeft || (mouse.kind
                == MouseEventKind::ScrollUp && mouse.modifiers.shift);
            let on = mouse.kind == MouseEventKind::ScrollRight || (mouse.kind
                == MouseEventKind::ScrollDown && mouse.modifiers.shift);
            &&& back ==> turned.1 == seq![
                Effect::Run(
                    AppCommand::HorizontalScrollAtColumn {
                        column: mouse.column,
                        total_width: told_width(probe),
                        delta: (-columns) as i32,
                    },
                ),
            ]
            &&& on ==> turned.1 == seq![
                Effect::Run(
                    AppCommand::HorizontalScrollAtColumn {
                        column: mouse.column,
                        total_width: told_width(probe),
                        delta: columns as i32,
                    },
                ),
            ]
            &&& back || on ==> turned.0 == (TuiApp {
                horizontal_scroll_lock: app.horizontal_scroll_lock.observed(now),
                horizontal_scroll_pacer: app.horizontal_scroll_pacer.stepped(now),
                ..app
            })
        }),
{
}

/// While a swipe goes along one axis, the wheel does nothing along the other.
#[verifier::rlimit(40)]
pub proof fn a_locked_axis_keeps_still(
    mouse: MouseEvent,
    app: TuiApp,
    now: Timestamp,
    probe: MouseProbe,
)
    requires
        panels_have_the_mouse(app),
    ensures
        ({
            let turned = mouse_spec(mouse, app, now, probe);
            let up_or_down = mouse.kind == MouseEventKind::ScrollUp || mouse.kind
                == MouseEventKind::ScrollDown;
            let sideways = mouse.kind == MouseEventKind::ScrollLeft || mouse.kind
                == MouseEventKind::ScrollRight;
            &&& app.horizontal_scroll_lock.is_locked(now) && up_or_down && !mouse.modifiers.shift
                ==> turned == (app, Seq::<Effect>::empty())
            &&& app.vertical_scroll_lock.is_locked(now) && (sideways || up_or_down
                && mouse.modifiers.shift) ==> turned == (app, Seq::<Effect>::empty())
        }),
{
}

/// A press on nothing moves the focus to the panel under it, the one that the wheel scrolls
/// there, and starts nothing else.
#[verifier::rlimit(40)]
pub proof fn a_press_focuses_the_panel_under_it(
    mouse: MouseEvent,
    app: TuiApp,
    now: Timestamp,
    probe: MouseProbe,
)
    requires
        panels_have_the_mouse(app),
        mouse.kind == MouseEventKind::Down(MouseButton::Left),
        app.hit_registry.hit(mouse.column, mouse.row) is None,
        app.last_preview_rect is None,
        app.last_diff_rect is None,
        app.last_commit_detail_rect is None,
    ensures
        probe.terminal_width matches Some(width) ==> mouse_spec(mouse, app, now, probe).1 == seq![
            Effect::Run(AppCommand::SetActivePanel(panel_under(app, mouse.column, width))),
        ],
        probe.terminal_width is None ==> mouse_spec(mouse, app, now, probe).1 == Seq::<
            Effect,
        >::empty(),
{
}

/// The panels lie side by side: the sidebar from the left edge on, the diff of a commit's file
/// up to the right edge where it has a column of its own, and what is left between them. A
/// hidden sidebar takes no column.
pub proof fn panels_lie_side_by_side(app: TuiApp, column: u16, width: u16)
    ensures
        ({
            let panel = panel_under(app, column, width);
            &&& panel == Panel::Files <==> column < app.sidebar(width)
            &&& app.engine.columns.sidebar_hidden ==> panel != Panel::Files
            &&& panel == Panel::Commit ==> app.engine.active_tab == Tab::Graph
            &&& app.engine.active_tab != Tab::Graph && column >= app.sidebar(width) ==> panel
                == Panel::Diff
            &&& !app.graph_uses_three_col() && column >= app.sidebar(width) ==> panel
                == Panel::Diff
        }),
        forall|other: u16|
            app.sidebar(width) <= column <= other && #[trigger] panel_under(app, other, width)
                == Panel::Commit ==> panel_under(app, column, width) == Panel::Commit,
{
}

/// Turns of the wheel that come slowly go three rows each. Turns that come within sixty
/// milliseconds of each other are a touchpad's: they go one row each, two after eight of them
/// and three after twenty-four.
pub proof fn fast_turns_begin_slowly(pacer: ScrollPacer, now: Timestamp)
    ensures
        ({
            let dense = pacer.last_at matches Some(at) && now.nanos < at.nanos + 60_000_000;
            let rows = pacer.step_size(now);
            &&& !dense ==> rows == 3 && pacer.stepped(now).dense_streak == 0
            &&& dense && pacer.dense_streak < u32::MAX ==> pacer.stepped(now).dense_streak
                == pacer.dense_streak + 1
            &&& dense && pacer.dense_streak < 7 ==> rows == 1
            &&& dense && 7 <= pacer.dense_streak < 23 ==> rows == 2
            &&& dense && 23 <= pacer.dense_streak ==> rows == 3
            &&& pacer.stepped(now).last_at == Some(now)
        }),
{
}

/// An axis is locked for a hundred and twenty milliseconds after the second of two events
/// that came at most a hundred and fifty milliseconds apart.
pub proof fn axes_lock_for_a_moment(lock: AxisLock, now: Timestamp)
    ensures
        lock.is_locked(now) <==> lock.streak >= 2 && (lock.last_at matches Some(at) && now.nanos
            < at.nanos + 120_000_000),
        ({
            let close = lock.last_at matches Some(at) && now.nanos <= at.nanos + 150_000_000;
            let next = lock.observed(now);
            &&& next.last_at == Some(now)
            &&& !close ==> next.streak == 1
            &&& close && lock.streak < u32::MAX ==> next.streak == lock.streak + 1
        }),
{
}

} // verus!
