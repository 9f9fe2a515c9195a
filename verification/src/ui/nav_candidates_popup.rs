//! The popup that lists the places a symbol leads to: a compact list, or an expanded view
//! with the code around each of them.

use crate::geometry::Rect;
use crate::layout::{larger, monus, smaller};
use crate::text::{decimal, decimal_text};
use crate::ui::mouse::ClickAction;
use crate::ui::snippets::{cut_start, truncate_start};
use crate::ui::width::text_columns;
use vstd::prelude::*;

verus! {

/// How tall the expanded view would like to be.
pub const PREFERRED_HEIGHT: u16 = 18;

/// What the expanded view needs below the cursor to open there.
pub const MIN_USEFUL_HEIGHT: u16 = 8;

/// The share of the expanded view that the code takes.
pub const PREVIEW_PERCENT: u16 = 68;

/// The share of the expanded view that the list takes.
pub const TREE_PERCENT: u16 = 32;

/// The width of the compact list.
pub const COMPACT_WIDTH: u16 = 82;

/// The columns that a path takes in the compact list.
pub const COMPACT_PATH_WIDTH: usize = 36;

/// A place that the symbol leads to.
#[derive(Debug)]
pub struct NavLocation {
    /// The file, if it is not the one at hand.
    pub path: Option<String>,
    pub line: usize,
    /// The symbol, as bytes of the line.
    pub byte_start: usize,
    pub byte_end: usize,
    pub snippet: String,
    /// The symbol, as bytes of the snippet.
    pub match_start: usize,
    pub match_end: usize,
}

/// The places in one file: those from `first` up to `end`.
#[derive(Debug)]
pub struct NavGroup {
    pub file: String,
    pub parent: Option<String>,
    pub expanded: bool,
    pub first: usize,
    pub end: usize,
}

/// The places that a symbol leads to.
#[derive(Debug)]
pub struct NavPopup {
    pub symbol: String,
    pub candidates: Vec<NavLocation>,
    pub groups: Vec<NavGroup>,
    pub selected: usize,
    pub scroll: usize,
    pub current_path: String,
}

impl NavPopup {
    /// Line numbers and places, which are counted from one, fit.
    pub open spec fn wf(self) -> bool {
        &&& self.candidates@.len() < usize::MAX
        &&& forall|i: int|
            0 <= i < self.candidates@.len() ==> (#[trigger] self.candidates@[i]).line < usize::MAX
    }
}

/// The area that the expanded view covers: the panel that the symbol stands in, or the
/// whole screen where that is not shown.
pub open spec fn host_of(panel: Option<Rect>, screen: Rect) -> Rect {
    match panel {
        Some(rect) if rect.width > 0 && rect.height > 0 => rect,
        _ => screen,
    }
}

/// What kind of panel a symbol stands in.
#[derive(Clone, Copy, Debug, PartialEq, Eq, Structural)]
pub enum LocationSurface {
    FilePreview,
    SearchPreview,
    GitDiff,
    GraphDiff,
}

impl LocationSurface {
    /// Where such a panel was drawn last: the two previews share one place, and so do the
    /// two diffs.
    pub open spec fn drawn_at(self, preview: Option<Rect>, diff: Option<Rect>) -> Option<Rect> {
        match self {
            LocationSurface::FilePreview => preview,
            LocationSurface::SearchPreview => preview,
            LocationSurface::GitDiff => diff,
            LocationSurface::GraphDiff => diff,
        }
    }
}

/// The area that the expanded view covers, where the preview and the diff were drawn last
/// at `preview` and `diff`.
pub fn peek_host_rect(
    surface: LocationSurface,
    preview: Option<Rect>,
    diff: Option<Rect>,
    screen: Rect,
) -> (r: Rect)
    ensures
        r == host_of(surface.drawn_at(preview, diff), screen),
{
    let panel = match surface {
        LocationSurface::FilePreview | LocationSurface::SearchPreview => preview,
        LocationSurface::GitDiff | LocationSurface::GraphDiff => diff,
    };
    match panel {
        Some(rect) => if rect.width > 0 && rect.height > 0 {
            rect
        } else {
            screen
        },
        None => screen,
    }
}

/// Where the expanded view begins: at the cursor if there is room below it, and at the
/// bottom of its host otherwise.
pub open spec fn peek_top(host: Rect, anchor_row: int) -> int {
    let height = smaller(host.height as int, PREFERRED_HEIGHT as int);
    let bottom = smaller(host.y + host.height, u16::MAX as int);
    if anchor_row >= host.y && monus(bottom, anchor_row) >= smaller(
        MIN_USEFUL_HEIGHT as int,
        height,
    ) {
        anchor_row
    } else {
        monus(bottom, height)
    }
}

/// The expanded view.
pub fn peek_area(host: Rect, anchor_row: u16) -> (r: Rect)
    ensures
        host.height == 0 ==> r == host,
        host.height > 0 ==> r.x == host.x && r.width == host.width && r.y == peek_top(
            host,
            anchor_row as int,
        ) && r.height == smaller(
            smaller(host.height as int, PREFERRED_HEIGHT as int),
            monus(
                smaller(host.y + host.height, u16::MAX as int),
                peek_top(host, anchor_row as int),
            ),
        ),
{
    let height: u16 = host.height.min(PREFERRED_HEIGHT);
    if height == 0 {
        return host;
    }
    let bottom: u16 = host.y.saturating_add(host.height);
    let below: u16 = bottom.saturating_sub(anchor_row);
    let y: u16 = if anchor_row >= host.y && below >= MIN_USEFUL_HEIGHT.min(height) {
        anchor_row
    } else {
        bottom.saturating_sub(height)
    };
    Rect::new(host.x, y, host.width, height.min(bottom.saturating_sub(y)))
}

/// The expanded view stays inside its host, and is never cut below what is useful while
/// the host has room for it.
pub proof fn peeks_stay_inside(host: Rect, anchor_row: int)
    requires
        host.height > 0,
        host.y + host.height <= u16::MAX,
        0 <= anchor_row,
    ensures
        host.y <= peek_top(host, anchor_row) < host.y + host.height,
        host.y + host.height - peek_top(host, anchor_row) >= smaller(
            MIN_USEFUL_HEIGHT as int,
            host.height as int,
        ),
{
}

/// Where a preview begins that shows the target in its middle.
pub open spec fn centred(line_count: int, target: int, height: int) -> int {
    smaller(
        monus(smaller(target, monus(line_count, 1)), height / 2),
        monus(line_count, height),
    )
}

/// Where a preview begins that shows the target in its middle.
pub fn preview_start(line_count: usize, target: usize, height: usize) -> (r: usize)
    ensures
        r == centred(line_count as int, target as int, height as int),
{
    let last: usize = line_count.saturating_sub(1);
    let line: usize = target.min(last);
    line.saturating_sub(height / 2).min(line_count.saturating_sub(height))
}

/// The preview shows the target, and no lines past the last one as long as there are
/// enough of them.
pub proof fn previews_show_their_target(line_count: int, target: int, height: int)
    requires
        0 <= target < line_count,
        0 < height,
    ensures
        0 <= centred(line_count, target, height) <= target < centred(line_count, target, height)
            + height,
        height <= line_count ==> centred(line_count, target, height) + height <= line_count,
{
}

/// The path and line of a place as the compact list shows them.
pub open spec fn location_text(candidate: NavLocation, current_path: Seq<char>) -> Seq<char> {
    let path = match candidate.path {
        Some(path) => path@,
        None => current_path,
    };
    cut_start(path, COMPACT_PATH_WIDTH as int).push(':') + decimal((candidate.line + 1) as nat)
}

/// The path and line of a place as the compact list shows them.
pub fn compact_location(candidate: &NavLocation, current_path: &str) -> (r: String)
    requires
        candidate.line < usize::MAX,
    ensures
        r@ == location_text(*candidate, current_path@),
{
    let mut out = match &candidate.path {
        Some(path) => truncate_start(path.as_str(), COMPACT_PATH_WIDTH),
        None => truncate_start(current_path, COMPACT_PATH_WIDTH),
    };
    out.push(':');
    out.push_str(decimal_text(candidate.line + 1).as_str());
    out
}

/// What is remembered of the list between two frames.
#[derive(Clone, Copy, Debug)]
pub struct PeekViewport {
    /// How many rows of the list are on screen.
    pub visible_rows: usize,
    /// The selection and the number of rows that the engine last fitted the scroll
    /// position to.
    pub reconciled: Option<(usize, usize)>,
}

impl PeekViewport {
    /// Notes how many rows are on screen. Returns that number if the engine has to fit
    /// its scroll position to it: when it or the selection has changed.
    pub fn reconcile(&mut self, selected: usize, viewport_rows: usize) -> (r: Option<usize>)
        ensures
            final(self).visible_rows == larger(viewport_rows as int, 1),
            final(self).reconciled == Some((selected, final(self).visible_rows)),
            r == (if old(self).reconciled == Some((selected, final(self).visible_rows)) {
                None
            } else {
                Some(final(self).visible_rows)
            }),
    {
        let rows: usize = viewport_rows.max(1);
        self.visible_rows = rows;
        let known = match self.reconciled {
            Some(view) => view.0 == selected && view.1 == rows,
            None => false,
        };
        if known {
            return None;
        }
        self.reconciled = Some((selected, rows));
        Some(rows)
    }
}

/// What a click on the popup asks for.
#[derive(Clone, Copy, Debug, PartialEq, Eq, Structural)]
pub enum PeekAction {
    Close,
    Capture,
    Select(usize),
    ToggleGroup(usize),
}

impl PeekAction {
    /// The action that a click on the zone stands for.
    #[verifier::allow_in_spec]
    pub fn click(self) -> ClickAction
        returns
            (match self {
                PeekAction::Close => ClickAction::NavCandidatesClose,
                PeekAction::Capture => ClickAction::NavCandidatesCapture,
                PeekAction::Select(index) => ClickAction::NavCandidateSelect(index),
                PeekAction::ToggleGroup(index) => ClickAction::NavCandidateGroupToggle(index),
            }),
    {
        match self {
            PeekAction::Close => ClickAction::NavCandidatesClose,
            PeekAction::Capture => ClickAction::NavCandidatesCapture,
            PeekAction::Select(index) => ClickAction::NavCandidateSelect(index),
            PeekAction::ToggleGroup(index) => ClickAction::NavCandidateGroupToggle(index),
        }
    }
}

/// A zone of the popup and what a click on it asks for.
#[derive(Clone, Copy, Debug, PartialEq, Eq, Structural)]
pub struct PeekZone {
    pub rect: Rect,
    pub action: PeekAction,
}

/// The zones under the popup: a click outside of it closes it, and one on its frame does
/// nothing.
pub open spec fn backdrop_zones(screen: Rect, area: Rect) -> Seq<PeekZone> {
    Seq::new(
        screen.height as nat,
        |i: int|
            PeekZone {
                rect: Rect::new(screen.x, (screen.y + i) as u16, screen.width, 1),
                action: PeekAction::Close,
            },
    ).push(PeekZone { rect: area, action: PeekAction::Capture })
}

/// The zones under the popup.
pub fn cover_screen(screen: Rect, area: Rect) -> (r: Vec<PeekZone>)
    requires
        screen.y + screen.height <= u16::MAX,
    ensures
        r@ == backdrop_zones(screen, area),
{
    let mut out: Vec<PeekZone> = Vec::new();
    let mut i: u16 = 0;
    while i < screen.height
        invariant
            i <= screen.height,
            screen.y + screen.height <= u16::MAX,
            out@.len() == i,
            forall|k: int|
                0 <= k < i ==> #[trigger] out@[k] == (PeekZone {
                    rect: Rect::new(screen.x, (screen.y + k) as u16, screen.width, 1),
                    action: PeekAction::Close,
                }),
        decreases screen.height - i,
    {
        out.push(
            PeekZone {
                rect: Rect::new(screen.x, screen.y + i, screen.width, 1),
                action: PeekAction::Close,
            },
        );
        i += 1;
    }
    out.push(PeekZone { rect: area, action: PeekAction::Capture });
    assert(out@ =~= backdrop_zones(screen, area));
    out
}

/// The inside of a frame.
#[verifier::allow_in_spec]
pub fn inside(area: Rect) -> Rect
    requires
        area.x + area.width <= u16::MAX,
        area.y + area.height <= u16::MAX,
    returns
        (Rect {
            x: (area.x + smaller(area.width as int, 1)) as u16,
            y: (area.y + smaller(area.height as int, 1)) as u16,
            width: monus(area.width as int, 2) as u16,
            height: monus(area.height as int, 2) as u16,
        }),
{
    Rect {
        x: area.x + area.width.min(1),
        y: area.y + area.height.min(1),
        width: area.width.saturating_sub(2),
        height: area.height.saturating_sub(2),
    }
}

/// The expanded view opens at the cursor wherever eight rows, or the whole host if that is
/// lower, are left below it, and otherwise at the bottom of its host.
pub proof fn peeks_open_at_the_cursor(host: Rect, anchor_row: int)
    requires
        host.height > 0,
        host.y + host.height <= u16::MAX,
        host.y <= anchor_row,
    ensures
        anchor_row + 8 <= host.y + host.height ==> peek_top(host, anchor_row) == anchor_row,
        host.height > 8 && host.y + host.height - anchor_row < 8 ==> peek_top(host, anchor_row)
            + smaller(host.height as int, 18) == host.y + host.height,
{
}

/// Where there are lines enough above and below, the target stands in the middle.
pub proof fn targets_stand_in_the_middle(line_count: int, target: int, height: int)
    requires
        0 <= target < line_count,
        0 < height,
    ensures
        height / 2 <= target && target - height / 2 + height <= line_count ==> target - centred(
            line_count,
            target,
            height,
        ) == height / 2,
        target < height / 2 ==> centred(line_count, target, height) == 0,
        line_count >= height && target - height / 2 + height > line_count ==> centred(
            line_count,
            target,
            height,
        ) + height == line_count,
{
}

/// A frame is one cell wide on every side.
pub proof fn frames_are_one_cell_wide(area: Rect)
    requires
        area.x + area.width <= u16::MAX,
        area.y + area.height <= u16::MAX,
        area.width >= 2,
        area.height >= 2,
    ensures
        inside(area).x == area.x + 1,
        inside(area).y == area.y + 1,
        inside(area).x + inside(area).width == area.x + area.width - 1,
        inside(area).y + inside(area).height == area.y + area.height - 1,
{
}

/// The view of a symbol in a preview covers the preview, that of one in a diff the diff, and
/// where that is not drawn it covers the screen.
pub proof fn views_cover_their_panel(preview: Rect, diff: Rect, screen: Rect)
    requires
        preview.width > 0 && preview.height > 0,
        diff.width > 0 && diff.height > 0,
    ensures
        host_of(LocationSurface::FilePreview.drawn_at(Some(preview), Some(diff)), screen) == preview,
        host_of(LocationSurface::SearchPreview.drawn_at(Some(preview), Some(diff)), screen)
            == preview,
        host_of(LocationSurface::GitDiff.drawn_at(Some(preview), Some(diff)), screen) == diff,
        host_of(LocationSurface::GraphDiff.drawn_at(Some(preview), Some(diff)), screen) == diff,
        host_of(None, screen) == screen,
        forall|empty: Rect|
            empty.width == 0 || empty.height == 0 ==> #[trigger] host_of(Some(empty), screen)
                == screen,
{
}

/// A press outside of the popup closes it, one on its frame does nothing, one on a place goes
/// there, and one on a file opens it or closes it.
pub proof fn presses_on_the_popup(index: usize)
    ensures
        PeekAction::Close.click() == ClickAction::NavCandidatesClose,
        PeekAction::Capture.click() == ClickAction::NavCandidatesCapture,
        PeekAction::Select(index).click() == ClickAction::NavCandidateSelect(index),
        PeekAction::ToggleGroup(index).click() == ClickAction::NavCandidateGroupToggle(index),
{
}

/// The zones under the popup cover the screen, row by row, and close it; the popup itself lies
/// on top of them.
pub proof fn the_screen_is_covered(screen: Rect, area: Rect, col: int, row: int)
    requires
        screen.y + screen.height <= u16::MAX,
        screen.holds(col, row),
    ensures
        ({
            let zones = backdrop_zones(screen, area);
            &&& zones.len() == screen.height + 1
            &&& zones[row - screen.y].rect.holds(col, row)
            &&& zones[row - screen.y].action == PeekAction::Close
            &&& zones.last() == (PeekZone { rect: area, action: PeekAction::Capture })
        }),
{
}

/// The compact list names the file of a place, or the one at hand where the place names none,
/// and the line, counted from one.
pub proof fn places_are_named(candidate: NavLocation, current: Seq<char>)
    ensures
        candidate.path is None && text_columns(current) <= 36 ==> location_text(candidate, current)
            == current + seq![':'] + decimal((candidate.line + 1) as nat),
        candidate.path is Some && text_columns(candidate.path->0@) <= 36 ==> location_text(
            candidate,
            current,
        ) == candidate.path->0@ + seq![':'] + decimal((candidate.line + 1) as nat),
{
}

} // verus!
