//! The preview of a text file: how far it is scrolled, and what is marked in its lines.

use crate::engine::SearchTarget;
use crate::geometry::Rect;
use crate::layout::{larger, monus, smaller};
use crate::text::{align_right, decimal, right_aligned, same_text};
use crate::ui::width::{text_columns, text_width};
use std::ops::Range;
use vstd::prelude::*;

verus! {

/// The columns that line numbers take.
pub const GUTTER_WIDTH: u16 = 6;

/// What the header says of a search in the preview: which match it is at, counted from
/// one, and how many there are; nothing while there are none.
pub fn preview_match_count(
    target: Option<SearchTarget>,
    matches: usize,
    current: Option<usize>,
) -> (r: Option<(usize, usize)>)
    requires
        current matches Some(i) ==> i < usize::MAX,
    ensures
        r == (if target == Some(SearchTarget::FilePreview) && matches > 0 {
            Some(
                (
                    match current {
                        Some(i) => (i + 1) as usize,
                        None => 0,
                    },
                    matches,
                ),
            )
        } else {
            None
        }),
{
    let here = match target {
        Some(target) => target == SearchTarget::FilePreview,
        None => false,
    };
    if here && matches > 0 {
        match current {
            Some(i) => Some((i + 1, matches)),
            None => Some((0, matches)),
        }
    } else {
        None
    }
}

/// The width of the widest of `n` lines from `from` on.
pub open spec fn widest_line(lines: Seq<String>, from: int, n: int) -> int
    decreases n,
{
    if n <= 0 {
        0
    } else {
        larger(widest_line(lines, from, n - 1), text_columns(lines[from + n - 1]@) as int)
    }
}

/// A frame of the preview.
#[derive(Clone, Copy, Debug)]
pub struct TextFrame {
    pub content_height: u16,
    /// The first line on screen.
    pub scroll: usize,
    pub h_scroll: usize,
    /// Where the text begins on screen, and the columns before it.
    pub origin: (u16, u16, u16),
    pub content_width: usize,
}

/// How many lines are on screen.
pub open spec fn lines_on_screen(count: int, scroll: int, height: int) -> int {
    smaller(height, monus(count, scroll))
}

/// Settles a frame: the text is scrolled no further than its last screenful, and sideways
/// no further than the widest line on screen goes. The text takes the part of `area` from
/// row `y` on.
pub fn settle_text(lines: &Vec<String>, area: Rect, y: u16, scroll: usize, h_scroll: usize) -> (r:
    TextFrame)
    requires
        area.y <= y <= area.y + area.height,
        area.y + area.height <= u16::MAX,
        area.x + GUTTER_WIDTH <= u16::MAX,
    ensures
        r.content_height == area.y + area.height - y,
        r.scroll == smaller(
            scroll as int,
            monus(lines@.len() as int, r.content_height as int),
        ),
        r.content_width == monus(area.width as int, GUTTER_WIDTH as int),
        r.h_scroll == smaller(
            h_scroll as int,
            monus(
                widest_line(
                    lines@,
                    r.scroll as int,
                    lines_on_screen(
                        lines@.len() as int,
                        r.scroll as int,
                        r.content_height as int,
                    ),
                ),
                r.content_width as int,
            ),
        ),
        r.origin == ((area.x + GUTTER_WIDTH) as u16, y, GUTTER_WIDTH),
        scroll + r.content_height <= lines@.len() ==> r.scroll == scroll,
        scroll + r.content_height > lines@.len() ==> r.scroll == 0 || r.scroll + r.content_height
            == lines@.len(),
        r.h_scroll <= h_scroll,
        r.h_scroll < h_scroll ==> forall|i: int|
            0 <= i < r.content_height && r.scroll + i < lines@.len() ==> text_columns(
                (#[trigger] lines@[r.scroll + i])@,
            ) <= r.h_scroll + r.content_width,
        r.h_scroll > 0 ==> exists|i: int|
            0 <= i < r.content_height && r.scroll + i < lines@.len() && text_columns(
                (#[trigger] lines@[r.scroll + i])@,
            ) >= r.h_scroll + r.content_width,
{
    let content_height: u16 = area.y + area.height - y;
    let height: usize = content_height as usize;
    let total: usize = lines.len();
    let first: usize = scroll.min(total.saturating_sub(height));
    let content_width: usize = (area.width as usize).saturating_sub(GUTTER_WIDTH as usize);
    let count: usize = height.min(total - first);
    let mut widest: usize = 0;
    let mut i: usize = 0;
    while i < count
        invariant
            i <= count <= total - first,
            first <= total == lines@.len(),
            widest == widest_line(lines@, first as int, i as int),
        decreases count - i,
    {
        widest = widest.max(text_width(lines[first + i].as_str()));
        i += 1;
    }
    proof {
        the_widest_line_limits_panning(lines@, first as int, height as int);
        if count > 0 {
            let k = choose|k: int|
                0 <= k < height && first + k < lines@.len() && text_columns(
                    (#[trigger] lines@[first + k])@,
                ) == widest_line(lines@, first as int, count as int);
            assert(text_columns(lines@[first + k]@) == widest);
        }
    }
    TextFrame {
        content_height,
        scroll: first,
        h_scroll: h_scroll.min(widest.saturating_sub(content_width)),
        origin: (area.x + GUTTER_WIDTH, y, GUTTER_WIDTH),
        content_width,
    }
}

/// A line on screen.
#[derive(Debug)]
pub struct TextRow {
    pub y: u16,
    pub line: usize,
    /// The line's number, and a space.
    pub gutter: String,
}

/// The number of a line in the gutter.
pub open spec fn number_text(line: int) -> Seq<char> {
    right_aligned((line + 1) as nat, 5).push(' ')
}

/// The lines on screen, top to bottom.
pub fn plan_text_rows(frame: &TextFrame, line_count: usize) -> (r: Vec<TextRow>)
    requires
        frame.origin.1 + frame.content_height <= u16::MAX,
    ensures
        r@.len() == lines_on_screen(
            line_count as int,
            frame.scroll as int,
            frame.content_height as int,
        ),
        forall|i: int|
            0 <= i < r@.len() ==> (#[trigger] r@[i]).y == frame.origin.1 + i && r@[i].line
                == frame.scroll + i && r@[i].gutter@ == number_text(frame.scroll + i),
{
    let count: usize = (frame.content_height as usize).min(
        line_count.saturating_sub(frame.scroll),
    );
    let mut out: Vec<TextRow> = Vec::new();
    let mut i: usize = 0;
    while i < count
        invariant
            i <= count <= frame.content_height,
            count <= monus(line_count as int, frame.scroll as int),
            frame.origin.1 + frame.content_height <= u16::MAX,
            out@.len() == i,
            forall|k: int|
                0 <= k < i ==> (#[trigger] out@[k]).y == frame.origin.1 + k && out@[k].line
                    == frame.scroll + k && out@[k].gutter@ == number_text(frame.scroll + k),
        decreases count - i,
    {
        let line: usize = frame.scroll + i;
        let mut gutter = align_right(line + 1, 5);
        gutter.push(' ');
        out.push(TextRow { y: frame.origin.1 + i as u16, line, gutter });
        i += 1;
    }
    out
}

/// A place that was jumped to, which stays marked for a while.
#[derive(Debug)]
pub struct PreviewHighlight {
    pub path: String,
    pub row: usize,
    pub start: usize,
    pub end: usize,
}

/// Whether the place is on this row of this file, and not empty.
pub open spec fn marks_row(mark: Option<PreviewHighlight>, path: Seq<char>, row: int) -> bool {
    mark matches Some(h) && h.path@ == path && h.row == row && h.start < h.end
}

/// Adds the place that was jumped to to the matches on a row. It takes the part of the
/// current match where the search is at none of them.
pub fn mark_row(
    ranges: Vec<Range<usize>>,
    current: Option<Range<usize>>,
    highlight: &Option<PreviewHighlight>,
    path: &str,
    row: usize,
) -> (r: (Vec<Range<usize>>, Option<Range<usize>>))
    ensures
        !marks_row(*highlight, path@, row as int) ==> r.0@ == ranges@ && r.1 == current,
        marks_row(*highlight, path@, row as int) ==> {
            let h = highlight->0;
            let place = Range { start: h.start, end: h.end };
            &&& r.0@ == ranges@.push(place)
            &&& r.1 == (if current is Some {
                current
            } else {
                Some(place)
            })
        },
{
    let mut ranges = ranges;
    match highlight {
        Some(h) => {
            if same_text(h.path.as_str(), path) && h.row == row && h.start < h.end {
                ranges.push(Range { start: h.start, end: h.end });
                match current {
                    Some(range) => (ranges, Some(range)),
                    None => (ranges, Some(Range { start: h.start, end: h.end })),
                }
            } else {
                (ranges, current)
            }
        },
        None => (ranges, current),
    }
}

/// The part of a row that is underlined while Control is held over it.
pub fn underline_on_row(hover: &Option<(usize, Range<usize>)>, row: usize) -> (r: Option<
    Range<usize>,
>)
    ensures
        r == (match *hover {
            Some((at, range)) if at == row && range.start < range.end => Some(range),
            _ => None,
        }),
{
    match hover {
        Some((at, range)) => if *at == row && range.start < range.end {
            Some(Range { start: range.start, end: range.end })
        } else {
            None
        },
        None => None,
    }
}

/// The last screenful is full: as long as there are lines enough, every row has one.
pub proof fn screens_are_full(count: int, scroll: int, height: int)
    requires
        0 <= scroll,
        0 <= height <= count,
    ensures
        lines_on_screen(count, smaller(scroll, monus(count, height)), height) == height,
{
}

proof fn lemma_widest_line(lines: Seq<String>, from: int, n: int)
    requires
        0 <= n,
    ensures
        forall|i: int|
            0 <= i < n ==> text_columns((#[trigger] lines[from + i])@) <= widest_line(
                lines,
                from,
                n,
            ),
        n > 0 ==> exists|i: int|
            0 <= i < n && text_columns((#[trigger] lines[from + i])@) == widest_line(
                lines,
                from,
                n,
            ),
        n == 0 ==> widest_line(lines, from, n) == 0,
    decreases n,
{
    if n > 0 {
        lemma_widest_line(lines, from, n - 1);
        let last = text_columns(lines[from + (n - 1)]@) as int;
        let before = widest_line(lines, from, n - 1);
        if n == 1 || last >= before {
            assert(text_columns(lines[from + (n - 1)]@) == widest_line(lines, from, n));
        } else {
            let i = choose|i: int|
                0 <= i < n - 1 && text_columns((#[trigger] lines[from + i])@) == before;
            assert(text_columns(lines[from + i]@) == widest_line(lines, from, n));
        }
    }
}

/// The width that limits sideways scrolling is that of the widest line on screen: no line
/// on screen is wider, one of them is as wide, and it is zero where there is none.
pub proof fn the_widest_line_limits_panning(lines: Seq<String>, scroll: int, height: int)
    requires
        0 <= scroll,
        0 <= height,
    ensures
        ({
            let shown = lines_on_screen(lines.len() as int, scroll, height);
            let width = widest_line(lines, scroll, shown);
            &&& forall|i: int|
                0 <= i < height && scroll + i < lines.len() ==> text_columns(
                    (#[trigger] lines[scroll + i])@,
                ) <= width
            &&& height > 0 && scroll < lines.len() ==> exists|i: int|
                0 <= i < height && scroll + i < lines.len() && text_columns(
                    (#[trigger] lines[scroll + i])@,
                ) == width
            &&& height == 0 || scroll >= lines.len() ==> width == 0
        }),
{
    let shown = lines_on_screen(lines.len() as int, scroll, height);
    lemma_widest_line(lines, scroll, shown);
    if shown > 0 {
        let i = choose|i: int|
            0 <= i < shown && text_columns((#[trigger] lines[scroll + i])@) == widest_line(
                lines,
                scroll,
                shown,
            );
        assert(text_columns(lines[scroll + i]@) == widest_line(lines, scroll, shown));
    }
}

/// A line's number counts from one, stands at the right of five columns, and a space follows.
pub proof fn lines_are_numbered_from_one(line: int)
    requires
        0 <= line,
    ensures
        ({
            let text = number_text(line);
            let digits = decimal((line + 1) as nat);
            &&& digits.len() <= 5 ==> text.len() == 6
            &&& text.last() == ' '
            &&& text.len() > digits.len()
            &&& text.subrange(text.len() - 1 - digits.len(), text.len() - 1) == digits
        }),
{
    let text = number_text(line);
    let digits = decimal((line + 1) as nat);
    assert(text.subrange(text.len() - 1 - digits.len(), text.len() - 1) =~= digits);
}

/// The place that was jumped to is marked on its own row of its own file, where it is not
/// empty.
pub proof fn places_are_marked_on_their_row(place: PreviewHighlight, path: Seq<char>, row: int)
    ensures
        !marks_row(None, path, row),
        marks_row(Some(place), path, row) ==> place.path@ == path && place.row == row
            && place.start < place.end,
        place.start < place.end ==> marks_row(Some(place), place.path@, place.row as int),
{
}

} // verus!
