//! The wheel, and scrolling by itself while a drag has left its panel.

use crate::app::TuiApp;
use crate::command::{none, nothing, one, run, run_only, two, AppCommand, Effect, Resume};
use crate::engine::{PreviewKind, Tab, ViewMode};
use crate::event::MouseEvent;
use crate::global_search;
use crate::global_search::move_effects;
use crate::input::graph::{diff_start, graph_diff_column_start};
use crate::layout::{monus, smaller};
use crate::scroll::{
    autoscroll_distance, autoscroll_distance_spec, autoscroll_step, autoscroll_step_spec,
    autoscroll_throttled, autoscroll_throttled_spec,
};
use crate::selection::{clamp_col_to_side, clamped_col, DiffHit, DiffSelection, PreviewSelection};
use crate::time::Timestamp;
use vstd::prelude::*;

verus! {

/// The width that is taken where the terminal does not tell its own.
pub const FALLBACK_WIDTH: u16 = 80;

/// The terminal's width, or a usual one where it does not tell.
#[verifier::allow_in_spec]
pub fn width_or_fallback(width: Option<u16>) -> u16
    returns
        (match width {
            Some(w) => w,
            None => FALLBACK_WIDTH,
        }),
{
    match width {
        Some(w) => w,
        None => FALLBACK_WIDTH,
    }
}

/// A number of lines as a move: negative towards the start.
pub open spec fn signed(back: bool, lines: usize) -> i32 {
    if back {
        (-lines) as i32
    } else {
        lines as i32
    }
}

/// A number of lines as a move.
pub fn signed_step(back: bool, lines: usize) -> (r: i32)
    requires
        lines <= 3,
    ensures
        r == signed(back, lines),
{
    if back {
        -(lines as i32)
    } else {
        lines as i32
    }
}

/// What scrolling the panel under the cursor by `lines` asks for. The focused preview
/// has one panel only, wherever the cursor is; the Search tab's list moves its
/// selection.
pub open spec fn wheel_effects(
    app: TuiApp,
    column: u16,
    total_width: u16,
    lines: i32,
    now: Timestamp,
) -> Seq<Effect> {
    let on_left = column < app.sidebar(total_width);
    let file_diff = run_only(AppCommand::ScrollCommitDetailFileDiffVertical(lines));
    let details = seq![Effect::CommitDetailScroll(lines)];
    if app.engine.view_mode == ViewMode::FocusedPreview {
        match app.engine.active_tab {
            Tab::Files => run_only(AppCommand::PreviewScroll(lines)),
            Tab::Search => run_only(AppCommand::PreviewScroll(lines)),
            Tab::Git => run_only(AppCommand::DiffScroll(lines)),
            Tab::Graph => if app.graph_uses_three_col() {
                file_diff
            } else {
                details
            },
        }
    } else {
        match app.engine.active_tab {
            Tab::Git => if on_left {
                seq![Effect::GitStatusScroll(lines)]
            } else {
                run_only(AppCommand::DiffScroll(lines))
            },
            Tab::Files => if on_left {
                run_only(AppCommand::ScrollFileTree(lines))
            } else {
                run_only(AppCommand::PreviewScroll(lines))
            },
            Tab::Graph => if on_left {
                seq![Effect::GitGraphScroll(lines)]
            } else {
                match diff_start(app, total_width) {
                    Some(start) => if column >= start {
                        file_diff
                    } else {
                        details
                    },
                    None => details,
                }
            },
            Tab::Search => if on_left {
                move_effects(app, lines, now)
            } else {
                run_only(AppCommand::PreviewScroll(lines))
            },
        }
    }
}

fn scroll_under_cursor(
    app: &TuiApp,
    column: u16,
    total_width: u16,
    lines: i32,
    now: Timestamp,
) -> (r: Vec<Effect>)
    ensures
        r@ == wheel_effects(*app, column, total_width, lines, now),
{
    if app.engine.view_mode == ViewMode::FocusedPreview {
        return match app.engine.active_tab {
            Tab::Files | Tab::Search => run(AppCommand::PreviewScroll(lines)),
            Tab::Git => run(AppCommand::DiffScroll(lines)),
            Tab::Graph => {
                if app.graph_uses_three_col() {
                    run(AppCommand::ScrollCommitDetailFileDiffVertical(lines))
                } else {
                    one(Effect::CommitDetailScroll(lines))
                }
            },
        };
    }
    let is_left = column < app.graph_sidebar_width(total_width);
    match app.engine.active_tab {
        Tab::Git => {
            if is_left {
                one(Effect::GitStatusScroll(lines))
            } else {
                run(AppCommand::DiffScroll(lines))
            }
        },
        Tab::Files => {
            if is_left {
                run(AppCommand::ScrollFileTree(lines))
            } else {
                run(AppCommand::PreviewScroll(lines))
            }
        },
        Tab::Graph => {
            if is_left {
                return one(Effect::GitGraphScroll(lines));
            }
            match graph_diff_column_start(app, total_width) {
                Some(start) => {
                    if column >= start {
                        run(AppCommand::ScrollCommitDetailFileDiffVertical(lines))
                    } else {
                        one(Effect::CommitDetailScroll(lines))
                    }
                },
                None => one(Effect::CommitDetailScroll(lines)),
            }
        },
        Tab::Search => {
            if is_left {
                global_search::move_selection_by(app, lines, now)
            } else {
                run(AppCommand::PreviewScroll(lines))
            }
        },
    }
}

/// What a turn of the wheel does: nothing in the tail of a swipe along the other axis,
/// and otherwise as many lines as the pace asks for.
pub open spec fn vertical_scroll_spec(
    back: bool,
    mouse: MouseEvent,
    app: TuiApp,
    now: Timestamp,
    width: Option<u16>,
) -> (TuiApp, Seq<Effect>) {
    if app.horizontal_scroll_lock.is_locked(now) {
        (app, nothing())
    } else {
        (
            TuiApp {
                vertical_scroll_lock: app.vertical_scroll_lock.observed(now),
                vertical_scroll_pacer: app.vertical_scroll_pacer.stepped(now),
                ..app
            },
            wheel_effects(
                app,
                mouse.column,
                width_or_fallback(width),
                signed(back, app.vertical_scroll_pacer.step_size(now)),
                now,
            ),
        )
    }
}

/// Scrolls what is under the cursor up or down.
pub fn dispatch_vertical_scroll(
    back: bool,
    mouse: MouseEvent,
    app: &mut TuiApp,
    now: Timestamp,
    width: Option<u16>,
) -> (r: Vec<Effect>)
    ensures
        *final(app) == vertical_scroll_spec(back, mouse, *old(app), now, width).0,
        r@ == vertical_scroll_spec(back, mouse, *old(app), now, width).1,
{
    if app.horizontal_scroll_lock.locked_at(now) {
        return none();
    }
    app.vertical_scroll_lock.observe_at(now);
    let step: usize = app.vertical_scroll_pacer.step_at(now);
    let total_width: u16 = width_or_fallback(width);
    scroll_under_cursor(app, mouse.column, total_width, signed_step(back, step), now)
}

/// What a sideways turn of the wheel does: nothing in the tail of a swipe along the
/// other axis, and otherwise as many columns as the pace asks for.
pub open spec fn horizontal_scroll_spec(
    back: bool,
    mouse: MouseEvent,
    app: TuiApp,
    now: Timestamp,
    width: Option<u16>,
) -> (TuiApp, Seq<Effect>) {
    if app.vertical_scroll_lock.is_locked(now) {
        (app, nothing())
    } else {
        (
            TuiApp {
                horizontal_scroll_lock: app.horizontal_scroll_lock.observed(now),
                horizontal_scroll_pacer: app.horizontal_scroll_pacer.stepped(now),
                ..app
            },
            run_only(
                AppCommand::HorizontalScrollAtColumn {
                    column: mouse.column,
                    total_width: width_or_fallback(width),
                    delta: signed(back, app.horizontal_scroll_pacer.step_size(now)),
                },
            ),
        )
    }
}

/// Scrolls what is under the cursor left or right.
pub fn dispatch_horizontal_scroll(
    back: bool,
    mouse: MouseEvent,
    app: &mut TuiApp,
    now: Timestamp,
    width: Option<u16>,
) -> (r: Vec<Effect>)
    ensures
        *final(app) == horizontal_scroll_spec(back, mouse, *old(app), now, width).0,
        r@ == horizontal_scroll_spec(back, mouse, *old(app), now, width).1,
{
    if app.vertical_scroll_lock.locked_at(now) {
        return none();
    }
    let step: usize = app.horizontal_scroll_pacer.step_at(now);
    app.horizontal_scroll_lock.observe_at(now);
    run(
        AppCommand::HorizontalScrollAtColumn {
            column: mouse.column,
            total_width: width_or_fallback(width),
            delta: signed_step(back, step),
        },
    )
}

/// The first row of the preview's text on screen, where a text is shown.
pub open spec fn preview_top(app: TuiApp) -> Option<u16> {
    match app.engine.preview.kind {
        PreviewKind::Markdown => match app.last_markdown_content_origin {
            Some(origin) => Some(origin.1),
            None => None,
        },
        PreviewKind::Text => match app.last_preview_content_origin {
            Some(origin) => Some(origin.1),
            None => None,
        },
        _ => None,
    }
}

/// The first row of the preview's text on screen.
pub fn preview_content_top(app: &TuiApp) -> (r: Option<u16>)
    ensures
        r == preview_top(*app),
{
    match app.engine.preview.kind {
        PreviewKind::Markdown => match app.last_markdown_content_origin {
            Some(origin) => Some(origin.1),
            None => None,
        },
        PreviewKind::Text => match app.last_preview_content_origin {
            Some(origin) => Some(origin.1),
            None => None,
        },
        _ => None,
    }
}

/// A view of `rows` rows of which `view_h` are on screen from `top` on, scrolled to
/// `scroll`, and the row of the cursor.
#[derive(Clone, Copy, Debug, PartialEq, Eq, Structural)]
pub struct DragView {
    pub top: u16,
    pub view_h: u16,
    pub rows: usize,
    pub scroll: usize,
    pub mouse_y: u16,
}

impl DragView {
    /// The row below the last one on screen.
    pub open spec fn bottom(self) -> int {
        smaller(self.top + self.view_h, u16::MAX as int)
    }

    /// Lines that the cursor pulls the view by; negative towards the start.
    pub open spec fn pull(self) -> int {
        autoscroll_step_spec(self.mouse_y as int, self.top as int, self.bottom())
    }

    /// Rows between the cursor and the edge that it has crossed.
    pub open spec fn distance(self) -> int {
        autoscroll_distance_spec(self.mouse_y as int, self.top as int, self.bottom())
    }

    /// Where the pull scrolls to: not before the start, and not past the last
    /// screenful.
    pub open spec fn target(self) -> int {
        if self.pull() < 0 {
            monus(self.scroll as int, -self.pull())
        } else {
            smaller(self.scroll + self.pull(), monus(self.rows as int, self.view_h as int))
        }
    }

    /// Whether this is the time to scroll: the cursor is outside, the last step is long
    /// enough ago, and there is somewhere to scroll to.
    pub open spec fn is_due(self, last_at: Option<Timestamp>, now: Timestamp) -> bool {
        self.pull() != 0 && !autoscroll_throttled_spec(last_at, self.distance(), now)
            && self.target() != self.scroll
    }

    /// Where to scroll to, where this is the time to.
    pub fn next_scroll(&self, last_at: Option<Timestamp>, now: Timestamp) -> (r: Option<usize>)
        requires
            self.view_h > 0,
        ensures
            match r {
                Some(scroll) => self.is_due(last_at, now) && scroll == self.target(),
                None => !self.is_due(last_at, now),
            },
    {
        let bottom: u16 = self.top.saturating_add(self.view_h);
        let step: i32 = autoscroll_step(self.mouse_y, self.top, bottom);
        if step == 0 {
            return None;
        }
        let dist: u16 = autoscroll_distance(self.mouse_y, self.top, bottom);
        if autoscroll_throttled(last_at, dist, now) {
            return None;
        }
        let max_scroll: usize = self.rows.saturating_sub(self.view_h as usize);
        let target: usize = if step < 0 {
            self.scroll.saturating_sub((-step) as usize)
        } else {
            self.scroll.saturating_add(step as usize).min(max_scroll)
        };
        if target == self.scroll {
            None
        } else {
            Some(target)
        }
    }
}

/// The view that a drag in the preview may scroll.
pub open spec fn preview_drag_view(app: TuiApp) -> Option<DragView> {
    match (app.preview_selection, app.last_drag_mouse, preview_top(app)) {
        (Some(sel), Some(mouse), Some(top)) => if sel.dragging && app.layout.last_preview_view_h
            > 0 {
            Some(
                DragView {
                    top,
                    view_h: app.layout.last_preview_view_h,
                    rows: app.engine.preview.row_count,
                    scroll: app.engine.preview.scroll,
                    mouse_y: mouse.1,
                },
            )
        } else {
            None
        },
        _ => None,
    }
}

/// What a tick does to a drag that has left the preview: the view scrolls towards the
/// cursor, and the selection follows once it has.
pub open spec fn preview_tick_spec(app: TuiApp, now: Timestamp) -> (TuiApp, Seq<Effect>) {
    match preview_drag_view(app) {
        Some(view) => if view.is_due(app.preview_autoscroll_at, now) {
            (
                TuiApp { preview_autoscroll_at: Some(now), ..app },
                seq![
                    Effect::Run(AppCommand::SetPreviewVerticalScroll(view.target() as usize)),
                    Effect::Then(Resume::PreviewDrag),
                ],
            )
        } else {
            (app, nothing())
        },
        None => (app, nothing()),
    }
}

fn drag_view_in_preview(app: &TuiApp) -> (r: Option<DragView>)
    ensures
        r == preview_drag_view(*app),
{
    let sel = match app.preview_selection {
        Some(sel) => sel,
        None => return None,
    };
    let mouse = match app.last_drag_mouse {
        Some(mouse) => mouse,
        None => return None,
    };
    let top: u16 = match preview_content_top(app) {
        Some(top) => top,
        None => return None,
    };
    let view_h: u16 = app.layout.last_preview_view_h;
    if !sel.dragging || view_h == 0 {
        return None;
    }
    Some(
        DragView {
            top,
            view_h,
            rows: app.engine.preview.row_count,
            scroll: app.engine.preview.scroll,
            mouse_y: mouse.1,
        },
    )
}

/// Scrolls the preview towards a drag that has left it.
pub fn tick_preview_drag_autoscroll(app: &mut TuiApp, now: Timestamp) -> (r: Vec<Effect>)
    ensures
        *final(app) == preview_tick_spec(*old(app), now).0,
        r@ == preview_tick_spec(*old(app), now).1,
{
    let view = match drag_view_in_preview(app) {
        Some(view) => view,
        None => return none(),
    };
    match view.next_scroll(app.preview_autoscroll_at, now) {
        Some(scroll) => {
            app.preview_autoscroll_at = Some(now);
            two(
                Effect::Run(AppCommand::SetPreviewVerticalScroll(scroll)),
                Effect::Then(Resume::PreviewDrag),
            )
        },
        None => none(),
    }
}

/// The selection with its loose end moved to `at`.
pub open spec fn extended(sel: Option<PreviewSelection>, at: Option<(usize, usize)>) -> Option<
    PreviewSelection,
> {
    match (sel, at) {
        (Some(s), Some(place)) => Some(PreviewSelection { active: place, ..s }),
        _ => sel,
    }
}

/// Moves the loose end of a selection to `at`.
pub fn extend_selection(sel: Option<PreviewSelection>, at: Option<(usize, usize)>) -> (r: Option<
    PreviewSelection,
>)
    ensures
        r == extended(sel, at),
{
    match (sel, at) {
        (Some(s), Some(place)) => Some(
            PreviewSelection { anchor: s.anchor, active: place, dragging: s.dragging },
        ),
        _ => sel,
    }
}

/// Moves the selection's loose end to the place that is under the cursor now.
pub fn extend_preview_drag(app: &mut TuiApp, at: Option<(usize, usize)>)
    ensures
        *final(app) == (TuiApp {
            preview_selection: extended(old(app).preview_selection, at),
            ..*old(app)
        }),
{
    app.preview_selection = extend_selection(app.preview_selection, at);
}

/// The view that a drag in the diff may scroll.
pub open spec fn diff_drag_view(app: TuiApp) -> Option<DragView> {
    match (app.diff_selection, app.last_drag_mouse, app.last_diff_hit) {
        (Some(sel), Some(mouse), Some(hit)) => match app.engine.active_diff_scroll {
            Some(scroll) => if sel.sel.dragging && app.layout.last_diff_view_h > 0 && hit.row_count
                > 0 {
                Some(
                    DragView {
                        top: hit.content_y,
                        view_h: app.layout.last_diff_view_h,
                        rows: hit.row_count,
                        scroll,
                        mouse_y: mouse.1,
                    },
                )
            } else {
                None
            },
            None => None,
        },
        _ => None,
    }
}

/// The drawn diff, as if it had been drawn at another scroll position.
pub open spec fn hit_scrolled(hit: Option<DiffHit>, scroll: usize) -> Option<DiffHit> {
    match hit {
        Some(h) => Some(DiffHit { scroll, ..h }),
        None => None,
    }
}

/// What a tick does to a drag that has left the diff.
pub open spec fn diff_tick_spec(app: TuiApp, now: Timestamp) -> (TuiApp, Seq<Effect>) {
    match diff_drag_view(app) {
        Some(view) => if view.is_due(app.diff_autoscroll_at, now) {
            (
                TuiApp {
                    diff_autoscroll_at: Some(now),
                    last_diff_hit: hit_scrolled(app.last_diff_hit, view.target() as usize),
                    ..app
                },
                seq![
                    Effect::Run(AppCommand::SetActiveDiffVerticalScroll(view.target() as usize)),
                    Effect::Then(Resume::DiffDrag),
                ],
            )
        } else {
            (app, nothing())
        },
        None => (app, nothing()),
    }
}

fn drag_view_in_diff(app: &TuiApp) -> (r: Option<DragView>)
    ensures
        r == diff_drag_view(*app),
{
    let sel = match app.diff_selection {
        Some(sel) => sel,
        None => return None,
    };
    let mouse = match app.last_drag_mouse {
        Some(mouse) => mouse,
        None => return None,
    };
    let hit = match app.last_diff_hit {
        Some(hit) => hit,
        None => return None,
    };
    let scroll: usize = match app.engine.active_diff_scroll {
        Some(scroll) => scroll,
        None => return None,
    };
    let view_h: u16 = app.layout.last_diff_view_h;
    if !sel.sel.dragging || view_h == 0 || hit.row_count == 0 {
        return None;
    }
    Some(DragView { top: hit.content_y, view_h, rows: hit.row_count, scroll, mouse_y: mouse.1 })
}

/// Scrolls the diff towards a drag that has left it. What is known of the drawn diff
/// scrolls along, so that the selection does not lag by a frame.
pub fn tick_diff_drag_autoscroll(app: &mut TuiApp, now: Timestamp) -> (r: Vec<Effect>)
    ensures
        *final(app) == diff_tick_spec(*old(app), now).0,
        r@ == diff_tick_spec(*old(app), now).1,
{
    let view = match drag_view_in_diff(app) {
        Some(view) => view,
        None => return none(),
    };
    match view.next_scroll(app.diff_autoscroll_at, now) {
        Some(scroll) => {
            app.diff_autoscroll_at = Some(now);
            if let Some(hit) = app.last_diff_hit {
                app.last_diff_hit = Some(
                    DiffHit {
                        row_count: hit.row_count,
                        layout: hit.layout,
                        scroll,
                        content_y: hit.content_y,
                        right_start_x: hit.right_start_x,
                    },
                );
            }
            two(
                Effect::Run(AppCommand::SetActiveDiffVerticalScroll(scroll)),
                Effect::Then(Resume::DiffDrag),
            )
        },
        None => none(),
    }
}

/// The diff selection with its loose end moved to `at`.
pub open spec fn diff_extended(sel: Option<DiffSelection>, at: Option<(usize, usize)>) -> Option<
    DiffSelection,
> {
    match (sel, at) {
        (Some(s), Some(place)) => Some(
            DiffSelection { sel: PreviewSelection { active: place, ..s.sel }, side: s.side },
        ),
        _ => sel,
    }
}

/// Moves the diff selection's loose end to the place that is under the cursor now, on
/// the side that the selection began on.
pub fn extend_diff_drag(app: &mut TuiApp, at: Option<(usize, usize)>)
    ensures
        *final(app) == (TuiApp {
            diff_selection: diff_extended(old(app).diff_selection, at),
            ..*old(app)
        }),
{
    if let Some(selection) = app.diff_selection {
        if let Some(place) = at {
            let sel = PreviewSelection {
                anchor: selection.sel.anchor,
                active: place,
                dragging: selection.sel.dragging,
            };
            app.diff_selection = Some(DiffSelection { sel, side: selection.side });
        }
    }
}

/// The column at which a diff drag looks for its place: the cursor's, moved to the side
/// that the selection began on.
pub fn diff_drag_column(app: &TuiApp, col: u16) -> (r: Option<u16>)
    ensures
        match (app.diff_selection, app.last_diff_hit) {
            (Some(sel), Some(hit)) => r is Some && r->0 == clamped_col(hit, col as int, sel.side),
            _ => r is None,
        },
{
    match (app.diff_selection, app.last_diff_hit) {
        (Some(sel), Some(hit)) => Some(clamp_col_to_side(&hit, col, sel.side)),
        _ => None,
    }
}

/// Scrolls whichever panel a drag has left: the preview, then the diff.
pub fn tick_drag_autoscroll(app: &mut TuiApp, now: Timestamp) -> (r: Vec<Effect>)
    ensures
        *final(app) == diff_tick_spec(preview_tick_spec(*old(app), now).0, now).0,
        r@ == preview_tick_spec(*old(app), now).1 + diff_tick_spec(
            preview_tick_spec(*old(app), now).0,
            now,
        ).1,
{
    let preview = tick_preview_drag_autoscroll(app, now);
    let diff = tick_diff_drag_autoscroll(app, now);
    crate::command::join(preview, diff)
}

/// Whether no drag has left the preview: none is going on, or its cursor is on the text.
pub open spec fn preview_rests(app: TuiApp) -> bool {
    ||| app.last_drag_mouse is None
    ||| app.preview_selection is None
    ||| !app.preview_selection->0.dragging
    ||| (preview_drag_view(app) matches Some(view) ==> view.top <= view.mouse_y < view.bottom())
}

/// Whether no drag has left the diff: none is going on, or its cursor is on the text.
pub open spec fn diff_rests(app: TuiApp) -> bool {
    ||| app.last_drag_mouse is None
    ||| app.diff_selection is None
    ||| !app.diff_selection->0.sel.dragging
    ||| (diff_drag_view(app) matches Some(view) ==> view.top <= view.mouse_y < view.bottom())
}

/// A panel that no drag has left does not scroll, and nothing else changes either.
pub proof fn panels_at_rest_do_not_scroll(app: TuiApp, now: Timestamp)
    ensures
        preview_rests(app) ==> preview_tick_spec(app, now) == (app, nothing()),
        diff_rests(app) ==> diff_tick_spec(app, now) == (app, nothing()),
{
}

/// A drag never scrolls a view out of its text: not before the start, and not past the
/// last screenful, unless it was scrolled past that already and is pulled back.
pub proof fn drags_scroll_within_the_text(view: DragView, last_at: Option<Timestamp>, now: Timestamp)
    requires
        view.is_due(last_at, now),
        view.view_h > 0,
    ensures
        0 <= view.target(),
        view.target() <= monus(view.rows as int, view.view_h as int) || view.target() < view.scroll,
        view.mouse_y < view.top ==> view.target() < view.scroll,
        -4 <= view.pull() <= 4,
{
}

/// While the cursor is inside the view, a drag does not scroll.
pub proof fn drags_inside_do_not_scroll(view: DragView, last_at: Option<Timestamp>, now: Timestamp)
    requires
        view.top <= view.mouse_y < view.bottom(),
    ensures
        !view.is_due(last_at, now),
{
}

/// While a swipe along one axis holds its lock, the other axis does not move.
pub proof fn swipes_keep_to_their_axis(
    back: bool,
    mouse: MouseEvent,
    app: TuiApp,
    now: Timestamp,
    width: Option<u16>,
)
    ensures
        app.horizontal_scroll_lock.is_locked(now) ==> vertical_scroll_spec(
            back,
            mouse,
            app,
            now,
            width,
        ) == (app, nothing()),
        app.vertical_scroll_lock.is_locked(now) ==> horizontal_scroll_spec(
            back,
            mouse,
            app,
            now,
            width,
        ) == (app, nothing()),
{
}

} // verus!
