//! Context menus on screen.

use crate::geometry::Rect;
use crate::layout::{larger, monus, smaller};
use crate::text::{blanks, concat, spaces};
use crate::ui::nav_candidates_popup::inside;
use crate::ui::nav_compact::{clamped, RowPlace};
use crate::ui::style::{Palette, StyledText, TextStyle};
use crate::ui::width::{text_columns, text_width};
use vstd::prelude::*;

verus! {

/// A row of a context menu.
#[derive(Debug)]
pub struct ContextMenuRow {
    pub label: String,
    pub enabled: bool,
}

/// Where a context menu is: below the place it was opened at, above it where there is no
/// room below, and as far down as the screen goes where there is none above either.
pub open spec fn menu_area(screen: Rect, anchor: (u16, u16), popup_w: u16, popup_h: u16) -> Rect {
    let bottom = screen.y + screen.height;
    let below = anchor.1 + 1;
    let y = if below + popup_h <= bottom {
        below
    } else if anchor.1 >= screen.y + popup_h {
        anchor.1 - popup_h
    } else {
        clamped(below, screen.y as int, bottom - popup_h)
    };
    Rect {
        x: clamped(
            anchor.0 as int,
            screen.x as int,
            screen.x + monus(screen.width as int, popup_w as int),
        ) as u16,
        y: y as u16,
        width: popup_w,
        height: popup_h,
    }
}

/// Where a context menu is.
pub fn context_menu_area(screen: Rect, anchor: (u16, u16), popup_w: u16, popup_h: u16) -> (r: Rect)
    requires
        screen.x + screen.width <= u16::MAX,
        screen.y + screen.height <= u16::MAX,
        popup_h <= screen.height,
    ensures
        r == menu_area(screen, anchor, popup_w, popup_h),
{
    let max_x: u16 = screen.x + screen.width.saturating_sub(popup_w);
    let x: u16 = anchor.0.max(screen.x).min(max_x);
    let bottom: u16 = screen.y + screen.height;
    let below: u32 = anchor.1 as u32 + 1;
    let y: u16 = if below + popup_h as u32 <= bottom as u32 {
        below as u16
    } else if anchor.1 >= screen.y + popup_h {
        anchor.1 - popup_h
    } else {
        anchor.1.saturating_add(1).max(screen.y).min(bottom - popup_h)
    };
    Rect::new(x, y, popup_w, popup_h)
}

/// A menu that was opened on the screen stays on it.
pub proof fn menus_stay_on_screen(screen: Rect, anchor: (u16, u16), popup_w: u16, popup_h: u16)
    requires
        screen.x + screen.width <= u16::MAX,
        screen.y + screen.height <= u16::MAX,
        popup_w <= screen.width,
        popup_h <= screen.height,
        screen.y <= anchor.1 < screen.y + screen.height,
    ensures
        menu_area(screen, anchor, popup_w, popup_h).within(screen),
{
}

/// A menu leaves the row that it was opened on in sight as long as there is room above
/// or below.
pub proof fn menus_leave_their_row(screen: Rect, anchor: (u16, u16), popup_w: u16, popup_h: u16)
    requires
        screen.x + screen.width <= u16::MAX,
        screen.y + screen.height <= u16::MAX,
        popup_h <= screen.height,
        screen.y <= anchor.1 < screen.y + screen.height,
        anchor.1 + 1 + popup_h <= screen.y + screen.height || anchor.1 - screen.y >= popup_h,
    ensures
        forall|col: int|
            !(#[trigger] menu_area(screen, anchor, popup_w, popup_h).holds(col, anchor.1 as int)),
{
}

/// The width of the widest of the first `n` labels.
pub open spec fn widest_label(rows: Seq<ContextMenuRow>, n: int) -> int
    decreases n,
{
    if n <= 0 {
        0
    } else {
        larger(widest_label(rows, n - 1), text_columns(rows[n - 1].label@) as int)
    }
}

/// The area of a menu with these rows: wide enough for the labels and tall enough for the
/// rows, as far as the screen allows.
pub open spec fn area_for(rows: Seq<ContextMenuRow>, screen: Rect, anchor: (u16, u16)) -> Rect {
    menu_area(
        screen,
        anchor,
        smaller(widest_label(rows, rows.len() as int) + 6, screen.width as int) as u16,
        smaller(rows.len() as int + 2, screen.height as int) as u16,
    )
}

/// The zone of a menu: a row, or, where it has none, all that lies under the menu, where
/// a click closes it.
#[derive(Clone, Copy, Debug, PartialEq, Eq, Structural)]
pub struct MenuZone {
    pub rect: Rect,
    pub row: Option<usize>,
}

/// A row of a menu on screen.
#[derive(Debug)]
pub struct MenuLine {
    pub y: u16,
    pub text: StyledText,
}

/// A menu on screen.
#[derive(Debug)]
pub struct MenuPlan {
    pub area: Rect,
    pub lines: Vec<MenuLine>,
    /// The later ones lie on top.
    pub zones: Vec<MenuZone>,
}

/// The words of a row, as wide as the menu.
pub open spec fn label_text(label: Seq<char>, width: int) -> Seq<char> {
    let padded = "  "@ + label + "  "@;
    padded + blanks(monus(width, text_columns(padded) as int))
}

/// The looks of a row.
pub open spec fn label_look(
    enabled: bool,
    selected: bool,
    hovered: bool,
    palette: Palette,
) -> TextStyle {
    TextStyle {
        fg: Some(
            if enabled {
                palette.fg_primary
            } else {
                palette.fg_secondary
            },
        ),
        bg: Some(
            if selected || hovered {
                palette.selection_bg
            } else {
                palette.chrome_bg
            },
        ),
        bold: selected,
        italic: false,
        underlined: false,
        dim: !enabled,
    }
}

fn label_style(enabled: bool, selected: bool, hovered: bool, palette: &Palette) -> (r: TextStyle)
    ensures
        r == label_look(enabled, selected, hovered, *palette),
{
    let bg = if selected || hovered {
        palette.selection_bg
    } else {
        palette.chrome_bg
    };
    let fg = if enabled {
        palette.fg_primary
    } else {
        palette.fg_secondary
    };
    let mut style = TextStyle::plain().with_fg(fg).with_bg(bg);
    if !enabled {
        style = style.with_dim();
    }
    if selected {
        style = style.with_bold();
    }
    style
}

/// Whether a line shows the `i`-th row.
pub open spec fn is_line(
    line: MenuLine,
    rows: Seq<ContextMenuRow>,
    i: int,
    selected: int,
    inner: Rect,
    hover: Option<(u16, u16)>,
    palette: Palette,
) -> bool {
    let place = RowPlace { x: inner.x, width: inner.width, hover };
    &&& line.y == inner.y + i
    &&& line.text.text@ == label_text(rows[i].label@, inner.width as int)
    &&& line.text.style == label_look(
        rows[i].enabled,
        i == selected,
        place.is_hovered(inner.y + i),
        palette,
    )
}

/// The zones of a menu: every row of the screen closes it, and its own rows lie on top of
/// that.
pub open spec fn menu_zones(screen: Rect, inner: Rect, count: int) -> Seq<MenuZone> {
    Seq::new(
        screen.height as nat,
        |i: int|
            MenuZone {
                rect: Rect::new(screen.x, (screen.y + i) as u16, screen.width, 1),
                row: None,
            },
    ) + Seq::new(
        count as nat,
        |i: int|
            MenuZone {
                rect: Rect::new(inner.x, (inner.y + i) as u16, inner.width, 1),
                row: Some(i as usize),
            },
    )
}

fn widest_width(rows: &Vec<ContextMenuRow>) -> (r: usize)
    ensures
        r == widest_label(rows@, rows@.len() as int),
{
    let mut out: usize = 0;
    let mut i: usize = 0;
    while i < rows.len()
        invariant
            i <= rows@.len(),
            out == widest_label(rows@, i as int),
        decreases rows@.len() - i,
    {
        out = out.max(text_width(rows[i].label.as_str()));
        i += 1;
    }
    out
}

/// `wanted` cells and `extra` ones, or `room` where there are not so many.
fn bounded(wanted: usize, extra: usize, room: u16) -> (r: u16)
    ensures
        r == smaller(wanted + extra, room as int),
{
    let sum: usize = wanted.saturating_add(extra);
    if sum < room as usize {
        sum as u16
    } else {
        room
    }
}

/// A menu on screen, with as many of its rows as there is room for.
pub fn render_rows(
    screen: Rect,
    anchor: (u16, u16),
    selected: usize,
    rows: &Vec<ContextMenuRow>,
    hover: Option<(u16, u16)>,
    palette: &Palette,
) -> (r: MenuPlan)
    requires
        screen.x + screen.width <= u16::MAX,
        screen.y + screen.height <= u16::MAX,
    ensures
        r.area == area_for(rows@, screen, anchor),
        ({
            let inner = inside(r.area);
            let count = smaller(rows@.len() as int, inner.height as int);
            &&& r.lines@.len() == count
            &&& forall|i: int|
                0 <= i < count ==> is_line(
                    #[trigger] r.lines@[i],
                    rows@,
                    i,
                    selected as int,
                    inner,
                    hover,
                    *palette,
                )
            &&& r.zones@ == menu_zones(screen, inner, count)
        }),
{
    let popup_w: u16 = bounded(widest_width(rows), 6, screen.width);
    let popup_h: u16 = bounded(rows.len(), 2, screen.height);
    let area = context_menu_area(screen, anchor, popup_w, popup_h);
    let inner = inside(area);
    let place = RowPlace { x: inner.x, width: inner.width, hover };
    let count: usize = rows.len().min(inner.height as usize);
    let mut zones: Vec<MenuZone> = Vec::new();
    let mut s: u16 = 0;
    let ghost all = menu_zones(screen, inner, count as int);
    while s < screen.height
        invariant
            s <= screen.height,
            screen.y + screen.height <= u16::MAX,
            all == menu_zones(screen, inner, count as int),
            zones@ == all.take(s as int),
        decreases screen.height - s,
    {
        zones.push(
            MenuZone { rect: Rect::new(screen.x, screen.y + s, screen.width, 1), row: None },
        );
        assert(zones@ =~= all.take(s + 1));
        s += 1;
    }
    let mut lines: Vec<MenuLine> = Vec::new();
    let mut i: usize = 0;
    while i < count
        invariant
            i <= count <= inner.height,
            count <= rows@.len(),
            inner.y + inner.height <= u16::MAX,
            place == (RowPlace { x: inner.x, width: inner.width, hover }),
            all == menu_zones(screen, inner, count as int),
            zones@ == all.take(screen.height + i),
            lines@.len() == i,
            forall|k: int|
                0 <= k < i ==> is_line(
                    #[trigger] lines@[k],
                    rows@,
                    k,
                    selected as int,
                    inner,
                    hover,
                    *palette,
                ),
        decreases count - i,
    {
        let y: u16 = inner.y + i as u16;
        let style = label_style(rows[i].enabled, i == selected, place.hovers(y), palette);
        let mut text = concat("  ", rows[i].label.as_str());
        text.push_str("  ");
        let used: usize = text_width(text.as_str());
        let pad: usize = (inner.width as usize).saturating_sub(used);
        text.push_str(spaces(pad).as_str());
        lines.push(MenuLine { y, text: StyledText { text, style } });
        zones.push(MenuZone { rect: Rect::new(inner.x, y, inner.width, 1), row: Some(i) });
        assert(zones@ =~= all.take(screen.height + i + 1));
        i += 1;
    }
    assert(all.take(screen.height + count) =~= all);
    MenuPlan { area, lines, zones }
}

proof fn lemma_widest_label(rows: Seq<ContextMenuRow>, n: int)
    requires
        0 <= n <= rows.len(),
    ensures
        forall|i: int|
            0 <= i < n ==> text_columns((#[trigger] rows[i]).label@) <= widest_label(rows, n),
        n > 0 ==> exists|i: int|
            0 <= i < n && text_columns((#[trigger] rows[i]).label@) == widest_label(rows, n),
    decreases n,
{
    if n > 0 {
        lemma_widest_label(rows, n - 1);
        let before = widest_label(rows, n - 1);
        if n == 1 || text_columns(rows[n - 1].label@) >= before {
            assert(text_columns(rows[n - 1].label@) == widest_label(rows, n));
        } else {
            let i = choose|i: int|
                0 <= i < n - 1 && text_columns((#[trigger] rows[i]).label@) == before;
            assert(text_columns(rows[i].label@) == widest_label(rows, n));
        }
    }
}

/// A menu is six columns wider than its widest label, and two rows higher than it has rows, as
/// far as the screen goes.
pub proof fn menus_hold_their_labels(
    rows: Seq<ContextMenuRow>,
    screen: Rect,
    anchor: (u16, u16),
)
    requires
        rows.len() > 0,
    ensures
        ({
            let area = area_for(rows, screen, anchor);
            &&& area.width == screen.width || exists|i: int|
                0 <= i < rows.len() && text_columns((#[trigger] rows[i]).label@) + 6 == area.width
            &&& area.width == screen.width || forall|i: int|
                0 <= i < rows.len() ==> text_columns((#[trigger] rows[i]).label@) + 6 <= area.width
            &&& rows.len() + 2 <= screen.height ==> area.height == rows.len() + 2
            &&& rows.len() + 2 > screen.height ==> area.height == screen.height
        }),
{
    lemma_widest_label(rows, rows.len() as int);
    let widest = widest_label(rows, rows.len() as int);
    let i = choose|i: int|
        0 <= i < rows.len() && text_columns((#[trigger] rows[i]).label@) == widest;
    assert(text_columns(rows[i].label@) == widest);
}

/// A menu opens one row below the place it was opened at where there is room, and else right
/// above it; it begins at the same column, or ends at the right edge.
pub proof fn menus_open_at_their_place(
    screen: Rect,
    anchor: (u16, u16),
    popup_w: u16,
    popup_h: u16,
)
    requires
        screen.x + screen.width <= u16::MAX,
        screen.y + screen.height <= u16::MAX,
        popup_w <= screen.width,
        popup_h <= screen.height,
        screen.x <= anchor.0,
    ensures
        ({
            let area = menu_area(screen, anchor, popup_w, popup_h);
            let bottom = screen.y + screen.height;
            &&& anchor.1 + 1 + popup_h <= bottom ==> area.y == anchor.1 + 1
            &&& anchor.1 + 1 + popup_h > bottom && anchor.1 >= screen.y + popup_h ==> area.y
                + area.height == anchor.1
            &&& anchor.0 + popup_w <= screen.x + screen.width ==> area.x == anchor.0
            &&& anchor.0 + popup_w > screen.x + screen.width ==> area.x + area.width == screen.x
                + screen.width
            &&& area.width == popup_w && area.height == popup_h
        }),
{
}

/// A row that is greyed out looks so, the selected row is bold, and it and the one under the
/// mouse have a background of their own.
pub proof fn rows_look_as_they_are(enabled: bool, selected: bool, hovered: bool, palette: Palette)
    ensures
        ({
            let style = label_look(enabled, selected, hovered, palette);
            &&& style.bold <==> selected
            &&& style.dim <==> !enabled
            &&& enabled ==> style.fg == Some(palette.fg_primary)
            &&& !enabled ==> style.fg == Some(palette.fg_secondary)
            &&& selected || hovered ==> style.bg == Some(palette.selection_bg)
            &&& !selected && !hovered ==> style.bg == Some(palette.chrome_bg)
        }),
{
}

/// A click on a row of the menu picks it, and a click anywhere else on the screen takes the
/// menu down: the rows of the screen come first, and those of the menu lie on top.
pub proof fn clicks_pick_or_close(screen: Rect, inner: Rect, count: int)
    requires
        screen.y + screen.height <= u16::MAX,
        inner.y + count <= u16::MAX,
        0 <= count,
    ensures
        ({
            let zones = menu_zones(screen, inner, count);
            &&& zones.len() == screen.height + count
            &&& forall|i: int|
                0 <= i < screen.height ==> (#[trigger] zones[i]).row is None && zones[i].rect
                    == Rect::new(screen.x, (screen.y + i) as u16, screen.width, 1)
            &&& forall|i: int|
                0 <= i < count ==> (#[trigger] zones[screen.height + i]).row == Some(i as usize)
                    && zones[screen.height + i].rect == Rect::new(
                    inner.x,
                    (inner.y + i) as u16,
                    inner.width,
                    1,
                )
        }),
{
}

/// A label has two blanks on each side, and more behind it up to the width of the row.
pub proof fn labels_fill_their_row(label: Seq<char>, width: int)
    requires
        text_columns("  "@ + label + "  "@) <= width,
    ensures
        ({
            let padded = "  "@ + label + "  "@;
            let text = label_text(label, width);
            &&& text.len() == padded.len() + width - text_columns(padded)
            &&& text.take(padded.len() as int) == padded
            &&& forall|i: int| padded.len() <= i < text.len() ==> #[trigger] text[i] == ' '
        }),
{
    let padded = "  "@ + label + "  "@;
    assert(label_text(label, width).take(padded.len() as int) =~= padded);
}

} // verus!
