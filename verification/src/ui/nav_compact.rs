//! The compact list of the places a symbol leads to.

use crate::geometry::Rect;
use crate::layout::{larger, monus, smaller};
use crate::text::{concat, decimal, decimal_text};
use crate::ui::nav_candidates_popup::{
    backdrop_zones, compact_location, cover_screen, inside, location_text, NavPopup, PeekAction,
    PeekZone, COMPACT_WIDTH,
};
use crate::ui::scrollbar::{scrollbar_thumb, scrolls, thumb_len, thumb_start};
use crate::ui::snippets::{
    are_pieces, compact_snippet_spans, cut_end, marked_snippet, truncate_end,
};
use crate::ui::style::{Color, Palette, StyledText, TextStyle};
use crate::ui::width::{text_columns, text_width};
use std::ops::Range;
use vstd::prelude::*;

verus! {

/// The width and height of the list on a screen, where the engine would show up to
/// `max_visible` places.
pub open spec fn size_on(screen: Rect, max_visible: int) -> (int, int) {
    (
        smaller(screen.width as int, COMPACT_WIDTH as int),
        smaller(screen.height as int, max_visible + 2),
    )
}

/// The width and height of the list on a screen.
pub fn compact_size(screen: Rect, max_visible: usize) -> (r: (u16, u16))
    ensures
        (r.0 as int, r.1 as int) == size_on(screen, max_visible as int),
{
    let width: u16 = screen.width.min(COMPACT_WIDTH);
    let wanted: usize = max_visible.saturating_add(2);
    let height: u16 = if wanted < screen.height as usize {
        wanted as u16
    } else {
        screen.height
    };
    (width, height)
}

/// `at`, moved between `low` and `high`.
pub open spec fn clamped(at: int, low: int, high: int) -> int {
    smaller(larger(at, low), high)
}

/// Where the list is: at the symbol, moved so that it fits the screen.
pub open spec fn area_on(screen: Rect, anchor: (u16, u16), max_visible: int) -> Rect {
    let size = size_on(screen, max_visible);
    Rect {
        x: clamped(anchor.0 as int, screen.x as int, screen.x + screen.width - size.0) as u16,
        y: clamped(anchor.1 as int, screen.y as int, screen.y + screen.height - size.1) as u16,
        width: size.0 as u16,
        height: size.1 as u16,
    }
}

/// The compact list never leaves the screen.
pub proof fn compact_lists_stay_on_screen(screen: Rect, anchor: (u16, u16), max_visible: int)
    requires
        screen.x + screen.width <= u16::MAX,
        screen.y + screen.height <= u16::MAX,
        0 <= max_visible,
    ensures
        area_on(screen, anchor, max_visible).within(screen),
{
}

/// The first place on screen.
pub open spec fn first_shown(popup: NavPopup, visible: int) -> int {
    smaller(popup.scroll as int, monus(popup.candidates@.len() as int, visible))
}

/// How many places are on screen.
pub open spec fn shown_count(popup: NavPopup, visible: int) -> int {
    smaller(visible, popup.candidates@.len() - first_shown(popup, visible))
}

/// The title of the list: which of the places are on screen, or what kind they are where
/// all of them are.
pub open spec fn title_text(popup: NavPopup, kind: Seq<char>, visible: int) -> Seq<char> {
    let total = popup.candidates@.len() as int;
    let scroll = first_shown(popup, visible);
    if total > visible {
        " "@ + popup.symbol@ + " — "@ + decimal((scroll + 1) as nat) + "–"@ + decimal(
            smaller(scroll + visible, total) as nat,
        ) + "/"@ + decimal(total as nat) + " "@
    } else {
        " "@ + popup.symbol@ + " — "@ + kind + " ("@ + decimal(total as nat) + ") "@
    }
}

/// The title of the list.
fn compact_title(popup: &NavPopup, kind: &str, visible: usize, scroll: usize) -> (r: String)
    requires
        popup.wf(),
        scroll == first_shown(*popup, visible as int),
    ensures
        r@ == title_text(*popup, kind@, visible as int),
{
    let total: usize = popup.candidates.len();
    let mut out = concat(" ", popup.symbol.as_str());
    out.push_str(" — ");
    if total > visible {
        out.push_str(decimal_text(scroll + 1).as_str());
        out.push_str("–");
        out.push_str(decimal_text((scroll + visible).min(total)).as_str());
        out.push_str("/");
        out.push_str(decimal_text(total).as_str());
        out.push_str(" ");
    } else {
        out.push_str(kind);
        out.push_str(" (");
        out.push_str(decimal_text(total).as_str());
        out.push_str(") ");
    }
    out
}

/// A row of the list.
#[derive(Debug)]
pub struct CompactRow {
    pub y: u16,
    pub candidate: usize,
    pub location: StyledText,
    pub snippet: Vec<StyledText>,
    /// The columns after the snippet.
    pub padding: usize,
    pub background: Color,
}

/// `a + b`, but no more than a `usize` can hold.
pub open spec fn capped_sum(a: int, b: int) -> int {
    smaller(a + b, usize::MAX as int)
}

/// Where the rows are, and what is under the mouse.
#[derive(Clone, Copy, Debug)]
pub struct RowPlace {
    pub x: u16,
    pub width: u16,
    pub hover: Option<(u16, u16)>,
}

impl RowPlace {
    /// Whether the mouse is over the row at `y`.
    pub open spec fn is_hovered(self, y: int) -> bool {
        self.hover matches Some((col, row)) && row == y && self.x <= col < self.x + self.width
    }

    /// Whether the mouse is over the row at `y`.
    pub fn hovers(&self, y: u16) -> (r: bool)
        ensures
            r == self.is_hovered(y as int),
    {
        match self.hover {
            Some((col, row)) => row == y && col >= self.x && (col as u32) < self.x as u32
                + self.width as u32,
            None => false,
        }
    }
}

impl CompactRow {
    /// Whether this is the row of the `index`-th place.
    pub open spec fn is_for(
        self,
        popup: NavPopup,
        index: int,
        y: int,
        place: RowPlace,
        palette: Palette,
    ) -> bool {
        let candidate = popup.candidates@[index];
        let selected = index == popup.selected;
        let background = if selected || place.is_hovered(y) {
            palette.selection_bg
        } else {
            palette.chrome_bg
        };
        let location = location_text(candidate, popup.current_path@);
        let location_width = capped_sum(text_columns(location) as int, 3);
        let snippet = cut_end(
            candidate.snippet@,
            monus(place.width as int, location_width),
        );
        let plain = TextStyle::plain().with_fg(palette.fg_primary).with_bg(background);
        &&& self.y == y
        &&& self.candidate == index
        &&& self.background == background
        &&& self.location.text@ == " "@ + location + "  "@
        &&& self.location.style == TextStyle::plain().with_fg(palette.accent).with_bg(
            background,
        ).with_bold()
        &&& are_pieces(
            self.snippet@,
            marked_snippet(snippet, popup.symbol@),
            if selected {
                plain.with_bold()
            } else {
                plain
            },
            TextStyle::plain().with_fg(palette.accent).with_bg(palette.search_match).with_bold(),
        )
        &&& self.padding == monus(
            place.width as int,
            capped_sum(location_width, text_columns(snippet) as int),
        )
    }
}

/// The row of the `index`-th place.
fn compact_row(
    popup: &NavPopup,
    index: usize,
    y: u16,
    place: &RowPlace,
    palette: &Palette,
) -> (r: CompactRow)
    requires
        popup.wf(),
        index < popup.candidates@.len(),
    ensures
        r.is_for(*popup, index as int, y as int, *place, *palette),
{
    let candidate = &popup.candidates[index];
    let selected = index == popup.selected;
    let background = if selected || place.hovers(y) {
        palette.selection_bg
    } else {
        palette.chrome_bg
    };
    let location = compact_location(candidate, popup.current_path.as_str());
    let location_width: usize = text_width(location.as_str()).saturating_add(3);
    let snippet = truncate_end(
        candidate.snippet.as_str(),
        (place.width as usize).saturating_sub(location_width),
    );
    let used: usize = location_width.saturating_add(text_width(snippet.as_str()));
    let padding: usize = (place.width as usize).saturating_sub(used);
    let plain = TextStyle::plain().with_fg(palette.fg_primary).with_bg(background);
    let snippet_style = if selected {
        plain.with_bold()
    } else {
        plain
    };
    let symbol_style = TextStyle::plain().with_fg(palette.accent).with_bg(
        palette.search_match,
    ).with_bold();
    let mut location_text = concat(" ", location.as_str());
    location_text.push_str("  ");
    CompactRow {
        y,
        candidate: index,
        location: StyledText {
            text: location_text,
            style: TextStyle::plain().with_fg(palette.accent).with_bg(background).with_bold(),
        },
        snippet: compact_snippet_spans(
            snippet.as_str(),
            popup.symbol.as_str(),
            snippet_style,
            symbol_style,
        ),
        padding,
        background,
    }
}

/// A scrollbar: its column and the cells of its thumb.
#[derive(Debug)]
pub struct Scrollbar {
    pub x: u16,
    pub thumb: Range<usize>,
}

/// The compact list on screen.
#[derive(Debug)]
pub struct CompactPlan {
    pub area: Rect,
    pub title: String,
    pub rows: Vec<CompactRow>,
    /// The width of the rows, without the scrollbar.
    pub body_width: u16,
    pub zones: Vec<PeekZone>,
    pub scrollbar: Option<Scrollbar>,
}

/// Whether the list is shown at all: there is something in it, and room for it.
pub open spec fn is_shown(popup: NavPopup, screen: Rect) -> bool {
    popup.candidates@.len() > 0 && screen.width >= 4 && screen.height >= 3
}

/// The columns that the scrollbar takes.
pub open spec fn scrollbar_columns(popup: NavPopup, visible: int) -> int {
    if popup.candidates@.len() > visible {
        1
    } else {
        0
    }
}

/// The zones of the rows.
pub open spec fn row_zones(inner: Rect, body_width: int, first: int, count: int) -> Seq<PeekZone> {
    Seq::new(
        count as nat,
        |i: int|
            PeekZone {
                rect: Rect::new(inner.x, (inner.y + i) as u16, body_width as u16, 1),
                action: PeekAction::Select((first + i) as usize),
            },
    )
}

/// The compact list on screen. `max_visible` is how many places the engine would show on
/// a screen of any height, and `visible` how many it shows in the height of the list.
pub fn plan_compact(
    popup: &NavPopup,
    screen: Rect,
    anchor: (u16, u16),
    max_visible: usize,
    visible: usize,
    kind: &str,
    hover: Option<(u16, u16)>,
    palette: &Palette,
) -> (r: Option<CompactPlan>)
    requires
        popup.wf(),
        screen.x + screen.width <= u16::MAX,
        screen.y + screen.height <= u16::MAX,
        visible <= max_visible,
        screen.height >= 3 ==> visible + 2 <= size_on(screen, max_visible as int).1,
    ensures
        r is Some <==> is_shown(*popup, screen),
        r matches Some(plan) ==> {
            let area = area_on(screen, anchor, max_visible as int);
            let inner = inside(area);
            let body_width = inner.width - scrollbar_columns(*popup, visible as int);
            let first = first_shown(*popup, visible as int);
            let count = shown_count(*popup, visible as int);
            let total = popup.candidates@.len() as int;
            let place = RowPlace { x: inner.x, width: body_width as u16, hover };
            &&& plan.area == area
            &&& plan.title@ == title_text(*popup, kind@, visible as int)
            &&& plan.body_width == body_width
            &&& plan.rows@.len() == count
            &&& forall|i: int|
                0 <= i < count ==> (#[trigger] plan.rows@[i]).is_for(
                    *popup,
                    first + i,
                    inner.y + i,
                    place,
                    *palette,
                )
            &&& plan.zones@ == backdrop_zones(screen, area) + row_zones(
                inner,
                body_width,
                first,
                count,
            )
            &&& plan.scrollbar is Some <==> scrolls(total, visible as int)
            &&& plan.scrollbar matches Some(bar) ==> {
                &&& bar.x == inner.x + inner.width - 1
                &&& bar.thumb.start == thumb_start(total, visible as int, first)
                &&& bar.thumb.end == bar.thumb.start + thumb_len(total, visible as int)
            }
        },
        r matches Some(plan) ==> forall|i: int|
            0 <= i < plan.rows@.len() ==> (#[trigger] plan.rows@[i]).y == plan.area.y + 1 + i
                && plan.rows@[i].candidate == plan.rows@[0].candidate + i,
        r matches Some(plan) ==> (plan.rows@.len() > 0 ==> if popup.scroll + visible
            <= popup.candidates@.len() {
            plan.rows@[0].candidate == popup.scroll && plan.rows@.len() == visible
        } else {
            plan.rows@[0].candidate + plan.rows@.len() == popup.candidates@.len()
        }),
{
    let total: usize = popup.candidates.len();
    if total == 0 || screen.width < 4 || screen.height < 3 {
        return None;
    }
    let (width, height) = compact_size(screen, max_visible);
    let scroll: usize = popup.scroll.min(total.saturating_sub(visible));
    let scrollbar_width: u16 = if total > visible {
        1
    } else {
        0
    };
    let x: u16 = anchor.0.max(screen.x).min(screen.x + (screen.width - width));
    let y: u16 = anchor.1.max(screen.y).min(screen.y + (screen.height - height));
    let area = Rect::new(x, y, width, height);
    assert(area == area_on(screen, anchor, max_visible as int));
    let mut zones = cover_screen(screen, area);
    let title = compact_title(popup, kind, visible, scroll);
    let inner = inside(area);
    let body_width: u16 = inner.width - scrollbar_width;
    let place = RowPlace { x: inner.x, width: body_width, hover };
    let count: usize = visible.min(total - scroll);
    let mut rows: Vec<CompactRow> = Vec::new();
    let mut i: usize = 0;
    let ghost under = zones@;
    assert(under + row_zones(inner, body_width as int, scroll as int, 0) =~= under);
    while i < count
        invariant
            i <= count <= inner.height,
            inner.y + inner.height <= u16::MAX,
            count <= total - scroll,
            scroll <= total == popup.candidates@.len(),
            popup.wf(),
            rows@.len() == i,
            forall|k: int|
                0 <= k < i ==> (#[trigger] rows@[k]).is_for(
                    *popup,
                    scroll + k,
                    inner.y + k,
                    place,
                    *palette,
                ),
            zones@ == under + row_zones(inner, body_width as int, scroll as int, i as int),
        decreases count - i,
    {
        let row_y: u16 = inner.y + i as u16;
        let index: usize = scroll + i;
        rows.push(compact_row(popup, index, row_y, &place, palette));
        zones.push(
            PeekZone {
                rect: Rect::new(inner.x, row_y, body_width, 1),
                action: PeekAction::Select(index),
            },
        );
        assert(zones@ =~= under + row_zones(
            inner,
            body_width as int,
            scroll as int,
            i + 1,
        ));
        i += 1;
    }
    let scrollbar = match scrollbar_thumb(total, visible, scroll) {
        Some(thumb) => Some(Scrollbar { x: inner.x + (inner.width - 1), thumb }),
        None => None,
    };
    Some(CompactPlan { area, title, rows, body_width, zones, scrollbar })
}

/// The list opens at the symbol wherever there is room for it right of it and below it, and
/// is moved no further than it must be: up to the right edge, or to the bottom. It is
/// eighty-two columns wide and two rows higher than the places it shows, or fills the screen.
pub proof fn compact_lists_open_at_the_symbol(screen: Rect, anchor: (u16, u16), max_visible: int)
    requires
        screen.x + screen.width <= u16::MAX,
        screen.y + screen.height <= u16::MAX,
        0 <= max_visible,
        screen.x <= anchor.0 && screen.y <= anchor.1,
    ensures
        ({
            let area = area_on(screen, anchor, max_visible);
            &&& screen.width >= 82 ==> area.width == 82
            &&& screen.width < 82 ==> area.width == screen.width
            &&& screen.height >= max_visible + 2 ==> area.height == max_visible + 2
            &&& screen.height < max_visible + 2 ==> area.height == screen.height
            &&& anchor.0 + area.width <= screen.x + screen.width ==> area.x == anchor.0
            &&& anchor.0 + area.width > screen.x + screen.width ==> area.x + area.width == screen.x
                + screen.width
            &&& anchor.1 + area.height <= screen.y + screen.height ==> area.y == anchor.1
            &&& anchor.1 + area.height > screen.y + screen.height ==> area.y + area.height
                == screen.y + screen.height
        }),
{
}

/// The list begins with place number `popup.scroll` as long as a screenful follows it, and
/// with the last screenful past that; the title counts the places that are on screen.
pub proof fn compact_lists_follow_the_scroll(popup: NavPopup, kind: Seq<char>, visible: int)
    requires
        0 <= visible,
    ensures
        ({
            let total = popup.candidates@.len() as int;
            let first = first_shown(popup, visible);
            &&& popup.scroll + visible <= total ==> first == popup.scroll && shown_count(
                popup,
                visible,
            ) == visible
            &&& popup.scroll + visible > total && visible <= total ==> first + visible == total
                && shown_count(popup, visible) == visible
            &&& visible > total ==> first == 0 && shown_count(popup, visible) == total
            &&& visible < total && popup.scroll + visible <= total ==> title_text(
                popup,
                kind,
                visible,
            ) == " "@ + popup.symbol@ + " — "@ + decimal((popup.scroll + 1) as nat) + "–"@
                + decimal((popup.scroll + visible) as nat) + "/"@ + decimal(total as nat) + " "@
            &&& visible >= total ==> title_text(popup, kind, visible) == " "@ + popup.symbol@
                + " — "@ + kind + " ("@ + decimal(total as nat) + ") "@
            &&& scrollbar_columns(popup, visible) == (if visible < total {
                1int
            } else {
                0int
            })
        }),
{
}

/// The selected row and the one under the mouse stand out, and no other does; what a row shows
/// fills it.
pub proof fn compact_rows_stand_out(
    row: CompactRow,
    popup: NavPopup,
    index: int,
    y: int,
    place: RowPlace,
    palette: Palette,
)
    requires
        row.is_for(popup, index, y, place, palette),
    ensures
        row.background == palette.selection_bg || row.background == palette.chrome_bg,
        index == popup.selected ==> row.background == palette.selection_bg,
        (place.hover matches Some((col, at)) && at == y && place.x <= col < place.x + place.width)
            ==> row.background == palette.selection_bg,
        index != popup.selected && !(place.hover matches Some((col, at)) && at == y && place.x
            <= col < place.x + place.width) ==> row.background == palette.chrome_bg,
        row.candidate == index && row.y == y,
{
}

/// A row names its place in the accent colour and in bold. The code follows, in bold too where
/// the place is selected, with the symbol in the accent colour over the colour of matches; and
/// blanks fill what is left.
pub proof fn compact_rows_show_place_and_code(
    row: CompactRow,
    popup: NavPopup,
    index: int,
    y: int,
    place: RowPlace,
    palette: Palette,
)
    requires
        row.is_for(popup, index, y, place, palette),
    ensures
        ({
            let location = location_text(popup.candidates@[index], popup.current_path@);
            let taken = text_columns(location) + 3;
            let code = popup.candidates@[index].snippet@;
            &&& row.location.text@ == " "@ + location + "  "@
            &&& row.location.style.fg == Some(palette.accent) && row.location.style.bold
                && row.location.style.bg == Some(row.background)
            &&& forall|i: int|
                0 <= i < row.snippet@.len() ==> {
                    let style = (#[trigger] row.snippet@[i]).style;
                    ||| style.fg == Some(palette.fg_primary) && style.bg == Some(row.background)
                        && (style.bold <==> index == popup.selected)
                    ||| style.fg == Some(palette.accent) && style.bg == Some(palette.search_match)
                        && style.bold
                }
            &&& taken + text_columns(code) <= place.width ==> taken + text_columns(code)
                + row.padding == place.width
        }),
{
}

/// A list is shown where there are places and the screen has four columns and three rows for
/// it, and a press on a row of it picks the place that the row shows.
pub proof fn compact_lists_are_pressed_row_by_row(
    popup: NavPopup,
    screen: Rect,
    inner: Rect,
    width: int,
    first: int,
    count: int,
    i: int,
)
    requires
        0 <= i < count,
    ensures
        is_shown(popup, screen) <==> popup.candidates@.len() > 0 && screen.width >= 4
            && screen.height >= 3,
        row_zones(inner, width, first, count).len() == count,
        row_zones(inner, width, first, count)[i] == (PeekZone {
            rect: Rect { x: inner.x, y: (inner.y + i) as u16, width: width as u16, height: 1 },
            action: PeekAction::Select((first + i) as usize),
        }),
{
}

} // verus!
