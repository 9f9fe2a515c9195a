//! The pieces of a Markdown row: which of them are on screen, how they look, and where
//! its links are.

use crate::layout::{larger, monus, smaller};
use crate::text::{blanks, spaces};
use crate::ui::preview::markdown::{MarkdownRole, MarkdownSpan};
use crate::ui::slices::{
    can_cut, char_at, is_boundary, lemma_boundary_inside, lemma_byte_at_concat,
    lemma_bytes_in_concat, lemma_char_at, lemma_cut_order, lemma_whole, slice, slice_bytes,
};
use crate::ui::style::{Color, StyledText, TextStyle, Palette};
use crate::ui::width::{
    byte_at, bytes_in, lemma_byte_at_ends, lemma_byte_at_grows, lemma_bytes_are_utf8,
    text_columns, text_width,
};
use std::ops::Range;
use vstd::prelude::*;

verus! {

/// A piece of a row that is on screen, and the place of the span it is a part of.
#[derive(Debug, PartialEq, Eq)]
pub struct VisibleMarkdownSpan {
    pub span: usize,
    pub text: String,
}

/// The texts of the first `n` spans, one after another.
pub open spec fn joined(spans: Seq<MarkdownSpan>, n: int) -> Seq<char>
    decreases n,
{
    if n <= 0 {
        Seq::empty()
    } else {
        joined(spans, n - 1) + spans[n - 1].text@
    }
}

/// The part of span `i` that lies between bytes `a` and `b` of the row.
pub open spec fn part_of(spans: Seq<MarkdownSpan>, i: int, a: int, b: int) -> Option<
    Seq<char>,
> {
    let span_start = bytes_in(joined(spans, i));
    let span_end = span_start + bytes_in(spans[i].text@);
    let start = larger(a, span_start);
    let end = smaller(b, span_end);
    if start < end {
        Some(slice(spans[i].text@, start - span_start, end - span_start))
    } else {
        None
    }
}

/// The parts of the first `n` spans that lie between bytes `a` and `b` of the row, with
/// the places of their spans.
pub open spec fn parts(spans: Seq<MarkdownSpan>, n: int, a: int, b: int) -> Seq<(int, Seq<char>)>
    decreases n,
{
    if n <= 0 {
        Seq::empty()
    } else {
        match part_of(spans, n - 1, a, b) {
            Some(text) => parts(spans, n - 1, a, b).push((n - 1, text)),
            None => parts(spans, n - 1, a, b),
        }
    }
}

/// Whether these are the pieces.
pub open spec fn are_parts(seen: Seq<VisibleMarkdownSpan>, wanted: Seq<(int, Seq<char>)>) -> bool {
    &&& seen.len() == wanted.len()
    &&& forall|i: int|
        0 <= i < seen.len() ==> (#[trigger] seen[i]).span == wanted[i].0 && seen[i].text@
            == wanted[i].1
}

/// Whether a row can be cut at bytes `a` and `b`.
pub open spec fn row_can_cut(spans: Seq<MarkdownSpan>, a: int, b: int) -> bool {
    can_cut(joined(spans, spans.len() as int), a, b)
}

proof fn lemma_joined_split(spans: Seq<MarkdownSpan>, i: int, n: int) -> (rest: Seq<char>)
    requires
        0 <= i < n <= spans.len(),
    ensures
        joined(spans, n) == joined(spans, i) + spans[i].text@ + rest,
    decreases n,
{
    if n == i + 1 {
        assert(joined(spans, n) =~= joined(spans, i) + spans[i].text@ + Seq::<char>::empty());
        Seq::empty()
    } else {
        let rest = lemma_joined_split(spans, i, n - 1);
        assert(joined(spans, n) =~= joined(spans, i) + spans[i].text@ + (rest + spans[n
            - 1].text@));
        rest + spans[n - 1].text@
    }
}

/// A row that can be cut at two bytes can have the spans between them cut.
proof fn lemma_part_can_cut(spans: Seq<MarkdownSpan>, i: int, a: int, b: int)
    requires
        0 <= i < spans.len(),
        row_can_cut(spans, a, b),
    ensures
        ({
            let span_start = bytes_in(joined(spans, i));
            let span_end = span_start + bytes_in(spans[i].text@);
            let start = larger(a, span_start);
            let end = smaller(b, span_end);
            start < end ==> can_cut(spans[i].text@, start - span_start, end - span_start)
        }),
{
    let before = joined(spans, i);
    let text = spans[i].text@;
    let rest = lemma_joined_split(spans, i, spans.len() as int);
    let span_start = bytes_in(before);
    lemma_whole(text);
    if a >= span_start && a <= span_start + bytes_in(text) {
        lemma_boundary_inside(before, text, rest, a);
    }
    if b >= span_start && b <= span_start + bytes_in(text) {
        lemma_boundary_inside(before, text, rest, b);
    }
}

/// The pieces of a row that lie between two of its bytes.
pub fn slice_row_spans(row: &Vec<MarkdownSpan>, range: &Range<usize>) -> (r: Vec<
    VisibleMarkdownSpan,
>)
    requires
        row_can_cut(row@, range.start as int, range.end as int),
        bytes_in(joined(row@, row@.len() as int)) <= usize::MAX,
    ensures
        are_parts(r@, parts(row@, row@.len() as int, range.start as int, range.end as int)),
{
    let mut out: Vec<VisibleMarkdownSpan> = Vec::new();
    let mut offset: usize = 0;
    let mut i: usize = 0;
    while i < row.len()
        invariant
            i <= row@.len(),
            row_can_cut(row@, range.start as int, range.end as int),
            bytes_in(joined(row@, row@.len() as int)) <= usize::MAX,
            offset == bytes_in(joined(row@, i as int)),
            are_parts(out@, parts(row@, i as int, range.start as int, range.end as int)),
        decreases row@.len() - i,
    {
        let text = row[i].text.as_str();
        let bytes = text.as_bytes();
        let len: usize = bytes.len();
        proof {
            lemma_bytes_are_utf8(text@);
            lemma_bytes_in_concat(joined(row@, i as int), text@);
            let rest = lemma_joined_split(row@, i as int, row@.len() as int);
            lemma_bytes_in_concat(joined(row@, i as int) + text@, rest);
            lemma_whole(rest);
            lemma_part_can_cut(row@, i as int, range.start as int, range.end as int);
        }
        let span_start: usize = offset;
        let span_end: usize = span_start + len;
        let start: usize = range.start.max(span_start);
        let end: usize = range.end.min(span_end);
        if start < end {
            let piece = slice_bytes(text, start - span_start, end - span_start);
            out.push(VisibleMarkdownSpan { span: i, text: piece });
        }
        offset = span_end;
        i += 1;
    }
    out
}

/// The texts of the pieces, one after another.
pub open spec fn pieces_text(pieces: Seq<(int, Seq<char>)>) -> Seq<char>
    decreases pieces.len(),
{
    if pieces.len() == 0 {
        Seq::empty()
    } else {
        pieces_text(pieces.drop_last()) + pieces.last().1
    }
}

/// The pieces between two bytes of a row are, one after another, the text between them:
/// nothing is lost where a row on screen ends inside a span.
pub proof fn pieces_make_the_row(spans: Seq<MarkdownSpan>, a: int, b: int)
    requires
        row_can_cut(spans, a, b),
    ensures
        pieces_text(parts(spans, spans.len() as int, a, b)) == slice(
            joined(spans, spans.len() as int),
            a,
            b,
        ),
{
    lemma_pieces(spans, spans.len() as int, a, b);
    let all = joined(spans, spans.len() as int);
    lemma_cut_order(all, a, b);
    let from = char_at(all, a);
    let to = char_at(all, b);
    assert(all.len() == joined(spans, spans.len() as int).len());
    assert(all.subrange(smaller(from, all.len() as int), smaller(to, all.len() as int))
        =~= all.subrange(from, to));
}

/// What the first `n` spans show of a range is the range's part of their text.
proof fn lemma_pieces(spans: Seq<MarkdownSpan>, n: int, a: int, b: int)
    requires
        0 <= n <= spans.len(),
        row_can_cut(spans, a, b),
    ensures
        ({
            let all = joined(spans, spans.len() as int);
            let len = joined(spans, n).len() as int;
            &&& len <= all.len()
            &&& pieces_text(parts(spans, n, a, b)) == all.subrange(
                smaller(char_at(all, a), len),
                smaller(char_at(all, b), len),
            )
        }),
    decreases n,
{
    let all = joined(spans, spans.len() as int);
    let from = char_at(all, a);
    let to = char_at(all, b);
    lemma_cut_order(all, a, b);
    if n == 0 {
        assert(pieces_text(parts(spans, 0, a, b)) =~= all.subrange(
            smaller(from, 0),
            smaller(to, 0),
        ));
    } else {
        lemma_pieces(spans, n - 1, a, b);
        let before = joined(spans, n - 1);
        let text = spans[n - 1].text@;
        let rest = lemma_joined_split(spans, n - 1, spans.len() as int);
        assert(joined(spans, n) =~= before + text);
        assert(all =~= before + text + rest);
        let start0 = bytes_in(before);
        let end0 = start0 + bytes_in(text);
        let start = larger(a, start0);
        let end = smaller(b, end0);
        let pre = parts(spans, n - 1, a, b);
        let lo = before.len() as int;
        let hi = (before + text).len() as int;
        // The spans' ends are places of the row.
        lemma_span_ends(before, text, rest);
        lemma_place_order(all, a, lo);
        lemma_place_order(all, a, hi);
        lemma_place_order(all, b, lo);
        lemma_place_order(all, b, hi);
        if start < end {
            lemma_part_can_cut(spans, n - 1, a, b);
            lemma_char_at(all, lo);
            lemma_char_at(all, hi);
            lemma_boundary_inside(before, text, rest, start);
            lemma_boundary_inside(before, text, rest, end);
            let piece = slice(text, start - start0, end - start0);
            assert(parts(spans, n, a, b).drop_last() =~= pre);
            lemma_cut_order(text, start - start0, end - start0);
            assert(piece =~= all.subrange(char_at(all, start), char_at(all, end)));
            assert(pieces_text(parts(spans, n, a, b)) =~= all.subrange(
                smaller(from, hi),
                smaller(to, hi),
            ));
        } else {
            lemma_byte_at_ends(text);
            lemma_byte_at_grows(text, 0, text.len() as int);
            assert(all.subrange(smaller(from, lo), smaller(to, lo)) =~= all.subrange(
                smaller(from, hi),
                smaller(to, hi),
            ));
        }
    }
}

proof fn lemma_span_ends(s: Seq<char>, t: Seq<char>, u: Seq<char>)
    ensures
        byte_at(s + t + u, s.len() as int) == bytes_in(s),
        byte_at(s + t + u, (s + t).len() as int) == bytes_in(s) + bytes_in(t),
{
    lemma_byte_at_concat(s + t, u, s.len() as int);
    lemma_byte_at_concat(s, t, s.len() as int);
    lemma_byte_at_concat(s + t, u, (s + t).len() as int);
    lemma_byte_at_ends(s);
    lemma_byte_at_ends(s + t);
    lemma_bytes_in_concat(s, t);
}

/// A byte stands before another exactly where its character does.
proof fn lemma_place_order(text: Seq<char>, b: int, k: int)
    requires
        is_boundary(text, b),
        0 <= k <= text.len(),
    ensures
        b < byte_at(text, k) <==> char_at(text, b) < k,
        b == byte_at(text, k) <==> char_at(text, b) == k,
{
    let j = char_at(text, b);
    if j < k {
        lemma_byte_at_grows(text, j, k);
    } else {
        lemma_byte_at_grows(text, k, j);
    }
}

/// The part of a range that lies in `visual`, counted from its start.
pub open spec fn overlap(range: Range<usize>, visual: Range<usize>) -> Option<Range<usize>> {
    let start = larger(range.start as int, visual.start as int);
    let end = smaller(range.end as int, visual.end as int);
    if start < end {
        Some(
            (Range {
                start: (start - visual.start) as usize,
                end: (end - visual.start) as usize,
            }),
        )
    } else {
        None
    }
}

/// The part of a range that lies in `visual`, counted from its start.
pub fn intersect_range(range: &Range<usize>, visual: &Range<usize>) -> (r: Option<Range<usize>>)
    ensures
        r == overlap(*range, *visual),
{
    let start: usize = range.start.max(visual.start);
    let end: usize = range.end.min(visual.end);
    if start < end {
        Some(Range { start: start - visual.start, end: end - visual.start })
    } else {
        None
    }
}

/// The parts of the first `n` ranges that lie in `visual`.
pub open spec fn overlaps(ranges: Seq<Range<usize>>, n: int, visual: Range<usize>) -> Seq<
    Range<usize>,
>
    decreases n,
{
    if n <= 0 {
        Seq::empty()
    } else {
        match overlap(ranges[n - 1], visual) {
            Some(range) => overlaps(ranges, n - 1, visual).push(range),
            None => overlaps(ranges, n - 1, visual),
        }
    }
}

/// The parts of the ranges that lie in `visual`.
pub fn intersect_ranges(ranges: &Vec<Range<usize>>, visual: &Range<usize>) -> (r: Vec<
    Range<usize>,
>)
    ensures
        r@ == overlaps(ranges@, ranges@.len() as int, *visual),
{
    let mut out: Vec<Range<usize>> = Vec::new();
    let mut i: usize = 0;
    while i < ranges.len()
        invariant
            i <= ranges@.len(),
            out@ == overlaps(ranges@, i as int, *visual),
        decreases ranges@.len() - i,
    {
        match intersect_range(&ranges[i], visual) {
            Some(range) => out.push(range),
            None => {},
        }
        i += 1;
    }
    out
}

/// A highlight on a row stays on it: its part lies inside the row, and a byte of the row
/// is highlighted exactly where it was.
pub proof fn highlights_stay_on_the_row(range: Range<usize>, visual: Range<usize>, byte: int)
    requires
        visual.start <= byte < visual.end,
    ensures
        (overlap(range, visual) matches Some(part) && part.start <= byte - visual.start
            < part.end) <==> range.start <= byte < range.end,
        overlap(range, visual) matches Some(part) ==> part.start < part.end && part.end
            <= visual.end - visual.start,
{
}

/// The columns before the `n`-th piece.
pub open spec fn columns_before(pieces: Seq<VisibleMarkdownSpan>, n: int) -> int
    decreases n,
{
    if n <= 0 {
        0
    } else {
        smaller(
            columns_before(pieces, n - 1) + text_columns(pieces[n - 1].text@),
            usize::MAX as int,
        )
    }
}

/// A link on screen.
#[derive(Debug, PartialEq, Eq)]
pub struct LinkZone {
    pub x: u16,
    pub y: u16,
    pub width: u16,
    pub link: String,
}

/// The link zone of a piece, if it belongs to a link and is not scrolled away.
pub open spec fn zone_of(
    row: Seq<MarkdownSpan>,
    pieces: Seq<VisibleMarkdownSpan>,
    i: int,
    at: (u16, u16),
    h_scroll: int,
    content_w: int,
) -> Option<LinkZone> {
    let start = monus(columns_before(pieces, i), h_scroll);
    let end = smaller(monus(columns_before(pieces, i + 1), h_scroll), content_w);
    match row[pieces[i].span as int].link {
        Some(link) if start < end => Some(
            (LinkZone {
                x: (at.0 + start) as u16,
                y: at.1,
                width: (end - start) as u16,
                link,
            }),
        ),
        _ => None,
    }
}

/// The link zones of the first `n` pieces.
pub open spec fn zones(
    row: Seq<MarkdownSpan>,
    pieces: Seq<VisibleMarkdownSpan>,
    n: int,
    at: (u16, u16),
    h_scroll: int,
    content_w: int,
) -> Seq<LinkZone>
    decreases n,
{
    if n <= 0 {
        Seq::empty()
    } else {
        match zone_of(row, pieces, n - 1, at, h_scroll, content_w) {
            Some(zone) => zones(row, pieces, n - 1, at, h_scroll, content_w).push(zone),
            None => zones(row, pieces, n - 1, at, h_scroll, content_w),
        }
    }
}

/// Where the links of a row are on screen, which begins at `at` and is scrolled by
/// `h_scroll` columns.
pub fn register_links(
    row: &Vec<MarkdownSpan>,
    pieces: &Vec<VisibleMarkdownSpan>,
    at: (u16, u16),
    h_scroll: usize,
    content_w: u16,
) -> (r: Vec<LinkZone>)
    requires
        forall|i: int| 0 <= i < pieces@.len() ==> (#[trigger] pieces@[i]).span < row@.len(),
        at.0 + content_w <= u16::MAX,
    ensures
        r@ == zones(
            row@,
            pieces@,
            pieces@.len() as int,
            at,
            h_scroll as int,
            content_w as int,
        ),
{
    let mut out: Vec<LinkZone> = Vec::new();
    let mut pos: usize = 0;
    let mut i: usize = 0;
    while i < pieces.len()
        invariant
            i <= pieces@.len(),
            forall|i: int| 0 <= i < pieces@.len() ==> (#[trigger] pieces@[i]).span < row@.len(),
            at.0 + content_w <= u16::MAX,
            pos == columns_before(pieces@, i as int),
            out@ == zones(row@, pieces@, i as int, at, h_scroll as int, content_w as int),
        decreases pieces@.len() - i,
    {
        let width: usize = text_width(pieces[i].text.as_str());
        let next: usize = pos.saturating_add(width);
        assert(next == columns_before(pieces@, i + 1));
        match &row[pieces[i].span].link {
            Some(link) => {
                let start: usize = pos.saturating_sub(h_scroll);
                let end: usize = next.saturating_sub(h_scroll).min(content_w as usize);
                if start < end {
                    out.push(
                        LinkZone {
                            x: at.0 + start as u16,
                            y: at.1,
                            width: (end - start) as u16,
                            link: link.clone(),
                        },
                    );
                }
            },
            None => {},
        }
        pos = next;
        i += 1;
    }
    out
}

/// Link zones lie inside the row.
pub proof fn links_stay_on_the_row(
    row: Seq<MarkdownSpan>,
    pieces: Seq<VisibleMarkdownSpan>,
    i: int,
    at: (u16, u16),
    h_scroll: int,
    content_w: int,
)
    requires
        at.0 + content_w <= u16::MAX,
    ensures
        zone_of(row, pieces, i, at, h_scroll, content_w) matches Some(zone) ==> at.0 <= zone.x
            && zone.width > 0 && zone.x + zone.width <= at.0 + content_w && zone.y == at.1,
{
}

/// Whether the cell lies on the columns from `start` to `end` of a row that begins at `at`
/// and is scrolled by `h_scroll` columns.
pub open spec fn lies_on(
    cell: Option<(u16, u16)>,
    at: (u16, u16),
    start: int,
    end: int,
    h_scroll: int,
    content_w: int,
) -> bool {
    let screen_start = smaller(monus(start, h_scroll), content_w);
    let screen_end = smaller(monus(end, h_scroll), content_w);
    match cell {
        Some((x, y)) => y == at.1 && at.0 + screen_start <= x < at.0 + screen_end,
        None => false,
    }
}

/// Whether the mouse is over the columns from `start` to `end` of a row.
pub fn span_hovered(
    hover: Option<(u16, u16)>,
    at: (u16, u16),
    start: usize,
    end: usize,
    h_scroll: usize,
    content_w: u16,
) -> (r: bool)
    requires
        at.0 + content_w <= u16::MAX,
    ensures
        r == lies_on(hover, at, start as int, end as int, h_scroll as int, content_w as int),
{
    match hover {
        None => false,
        Some((x, y)) => {
            if y != at.1 {
                return false;
            }
            let screen_start: usize = start.saturating_sub(h_scroll).min(content_w as usize);
            let screen_end: usize = end.saturating_sub(h_scroll).min(content_w as usize);
            screen_start < screen_end && x >= at.0 + screen_start as u16 && x < at.0
                + screen_end as u16
        },
    }
}

/// The colour behind code.
#[verifier::allow_in_spec]
pub fn code_block_bg(th: &Palette) -> Color
    returns
        (if th.is_dark {
            Color::Rgb(36, 38, 46)
        } else {
            Color::Rgb(246, 248, 250)
        }),
{
    if th.is_dark {
        Color::Rgb(36, 38, 46)
    } else {
        Color::Rgb(246, 248, 250)
    }
}

/// The colour of code.
#[verifier::allow_in_spec]
pub fn code_block_fg(th: &Palette) -> Color
    returns
        (if th.is_dark {
            Color::Rgb(230, 232, 238)
        } else {
            th.fg_primary
        }),
{
    if th.is_dark {
        Color::Rgb(230, 232, 238)
    } else {
        th.fg_primary
    }
}

/// The colour of a code block's label.
#[verifier::allow_in_spec]
pub fn code_block_label_fg(th: &Palette) -> Color
    returns
        (if th.is_dark {
            Color::Rgb(150, 180, 205)
        } else {
            th.fg_secondary
        }),
{
    if th.is_dark {
        Color::Rgb(150, 180, 205)
    } else {
        th.fg_secondary
    }
}

/// The colour of a link under the mouse.
#[verifier::allow_in_spec]
pub fn link_hover_fg(th: &Palette) -> Color
    returns
        (if th.is_dark {
            Color::Rgb(255, 220, 120)
        } else {
            Color::Rgb(130, 80, 223)
        }),
{
    if th.is_dark {
        Color::Rgb(255, 220, 120)
    } else {
        Color::Rgb(130, 80, 223)
    }
}

/// The looks of a link under the mouse.
#[verifier::allow_in_spec]
pub fn link_hover_style(style: TextStyle, th: &Palette) -> TextStyle
    returns
        style.with_fg(link_hover_fg(th)).with_bold(),
{
    style.with_fg(link_hover_fg(th)).with_bold()
}

/// The looks of a role.
pub open spec fn role_look(role: MarkdownRole, th: Palette) -> TextStyle {
    let plain = TextStyle::plain();
    match role {
        MarkdownRole::Normal => plain.with_fg(th.fg_primary),
        MarkdownRole::Heading => plain.with_fg(th.accent).with_bold(),
        MarkdownRole::Quote => plain.with_fg(th.fg_secondary),
        MarkdownRole::Code => plain.with_fg(th.accent),
        MarkdownRole::CodeBlockHeader => plain.with_fg(code_block_label_fg(&th)).with_bg(
            code_block_bg(&th),
        ).with_bold(),
        MarkdownRole::CodeBlockText => plain.with_fg(code_block_fg(&th)).with_bg(
            code_block_bg(&th),
        ),
        MarkdownRole::Link => plain.with_fg(th.accent).with_underline(),
        MarkdownRole::TableHeader => plain.with_fg(th.fg_primary).with_bold(),
        MarkdownRole::Border => plain.with_fg(th.fg_secondary),
    }
}

/// The looks of a span: those of its role; what the span adds to them; the colours of
/// code over that; and the colours of a link over everything.
pub open spec fn look(span: MarkdownSpan, th: Palette) -> TextStyle {
    let role = role_look(span.role, th);
    let fg = if span.link is Some {
        Some(th.accent)
    } else {
        match span.syntax {
            Some(syntax) if syntax.fg is Some => syntax.fg,
            _ => role.fg,
        }
    };
    TextStyle {
        fg,
        bg: role.bg,
        bold: role.bold || span.bold || (span.syntax matches Some(s) && s.bold),
        italic: role.italic || span.italic || (span.syntax matches Some(s) && s.italic),
        underlined: role.underlined || span.link is Some || (span.syntax matches Some(s)
            && s.underlined),
        dim: role.dim || (span.syntax matches Some(s) && s.dim),
    }
}

/// The looks of a span.
pub fn span_style(span: &MarkdownSpan, th: &Palette) -> (r: TextStyle)
    ensures
        r == look(*span, *th),
{
    let plain = TextStyle::plain();
    let mut style = match span.role {
        MarkdownRole::Normal => plain.with_fg(th.fg_primary),
        MarkdownRole::Heading => plain.with_fg(th.accent).with_bold(),
        MarkdownRole::Quote => plain.with_fg(th.fg_secondary),
        MarkdownRole::Code => plain.with_fg(th.accent),
        MarkdownRole::CodeBlockHeader => plain.with_fg(code_block_label_fg(th)).with_bg(
            code_block_bg(th),
        ).with_bold(),
        MarkdownRole::CodeBlockText => plain.with_fg(code_block_fg(th)).with_bg(
            code_block_bg(th),
        ),
        MarkdownRole::Link => plain.with_fg(th.accent).with_underline(),
        MarkdownRole::TableHeader => plain.with_fg(th.fg_primary).with_bold(),
        MarkdownRole::Border => plain.with_fg(th.fg_secondary),
    };
    if span.bold {
        style = style.with_bold();
    }
    if span.italic {
        style = style.with_italic();
    }
    match span.syntax {
        Some(syntax) => {
            match syntax.fg {
                Some(fg) => {
                    style = style.with_fg(fg);
                },
                None => {},
            }
            if syntax.bold {
                style = style.with_bold();
            }
            if syntax.italic {
                style = style.with_italic();
            }
            if syntax.underlined {
                style = style.with_underline();
            }
            if syntax.dim {
                style = style.with_dim();
            }
        },
        None => {},
    }
    if span.link.is_some() {
        style = style.with_fg(th.accent).with_underline();
    }
    style
}

/// Whether a role belongs to a code block.
pub open spec fn is_code_block(role: MarkdownRole) -> bool {
    role == MarkdownRole::CodeBlockHeader || role == MarkdownRole::CodeBlockText
}

/// The colour behind a whole row: that of code, if there is any in it.
pub open spec fn backdrop(row: Seq<MarkdownSpan>, th: Palette) -> Option<Color> {
    if exists|i: int| 0 <= i < row.len() && is_code_block((#[trigger] row[i]).role) {
        Some(code_block_bg(&th))
    } else {
        None
    }
}

/// The colour behind a whole row.
pub fn row_bg(row: &Vec<MarkdownSpan>, th: &Palette) -> (r: Option<Color>)
    ensures
        r == backdrop(row@, *th),
{
    let mut i: usize = 0;
    while i < row.len()
        invariant
            i <= row@.len(),
            forall|k: int| 0 <= k < i ==> !is_code_block((#[trigger] row@[k]).role),
        decreases row@.len() - i,
    {
        let role = row[i].role;
        if role == MarkdownRole::CodeBlockHeader || role == MarkdownRole::CodeBlockText {
            assert(is_code_block(row@[i as int].role));
            return Some(code_block_bg(th));
        }
        i += 1;
    }
    None
}

/// The columns that the first `n` pieces of text take.
pub open spec fn columns_used(spans: Seq<StyledText>, n: int) -> int
    decreases n,
{
    if n <= 0 {
        0
    } else {
        smaller(
            columns_used(spans, n - 1) + text_columns(spans[n - 1].text@),
            usize::MAX as int,
        )
    }
}

/// Fills a row up with its backdrop, to the width of the screen.
pub fn pad_row_bg(spans: &mut Vec<StyledText>, content_w: usize, bg: Option<Color>)
    ensures
        match bg {
            Some(color) if columns_used(old(spans)@, old(spans)@.len() as int) < content_w => {
                &&& final(spans)@.len() == old(spans)@.len() + 1
                &&& final(spans)@.drop_last() == old(spans)@
                &&& final(spans)@.last().text@ == blanks(
                    content_w - columns_used(old(spans)@, old(spans)@.len() as int),
                )
                &&& final(spans)@.last().style == TextStyle::plain().with_bg(color)
            },
            _ => final(spans)@ == old(spans)@,
        },
{
    match bg {
        None => {},
        Some(color) => {
            let mut used: usize = 0;
            let mut i: usize = 0;
            while i < spans.len()
                invariant
                    i <= spans@.len(),
                    spans@ == old(spans)@,
                    used == columns_used(spans@, i as int),
                decreases spans@.len() - i,
            {
                used = used.saturating_add(text_width(spans[i].text.as_str()));
                i += 1;
            }
            if used < content_w {
                spans.push(
                    StyledText {
                        text: spaces(content_w - used),
                        style: TextStyle::plain().with_bg(color),
                    },
                );
                assert(spans@.drop_last() =~= old(spans)@);
            }
        },
    }
}

/// A byte on screen is marked exactly where one of the marks of the row covers it.
pub proof fn marks_cover_the_same_bytes(
    ranges: Seq<Range<usize>>,
    n: int,
    visual: Range<usize>,
    byte: int,
)
    requires
        0 <= n <= ranges.len(),
        visual.start <= byte < visual.end,
    ensures
        (exists|k: int|
            0 <= k < overlaps(ranges, n, visual).len() && (#[trigger] overlaps(
                ranges,
                n,
                visual,
            )[k]).start <= byte - visual.start < overlaps(ranges, n, visual)[k].end) <==> (exists|
            i: int,
        |
            0 <= i < n && (#[trigger] ranges[i]).start <= byte < ranges[i].end),
        overlaps(ranges, n, visual).len() <= n,
    decreases n,
{
    if n > 0 {
        marks_cover_the_same_bytes(ranges, n - 1, visual, byte);
        highlights_stay_on_the_row(ranges[n - 1], visual, byte);
        let before = overlaps(ranges, n - 1, visual);
        let all = overlaps(ranges, n, visual);
        let at = byte - visual.start;
        if exists|k: int| 0 <= k < before.len() && (#[trigger] before[k]).start <= at < before[k].end {
            let k = choose|k: int|
                0 <= k < before.len() && (#[trigger] before[k]).start <= at < before[k].end;
            assert(all[k].start <= at < all[k].end);
        }
        if ranges[n - 1].start <= byte < ranges[n - 1].end {
            assert(all[before.len() as int].start <= at < all[before.len() as int].end);
        }
        if exists|k: int| 0 <= k < all.len() && (#[trigger] all[k]).start <= at < all[k].end {
            let k = choose|k: int|
                0 <= k < all.len() && (#[trigger] all[k]).start <= at < all[k].end;
            if k < before.len() {
                assert(before[k].start <= at < before[k].end);
            }
        }
    }
}

/// A column of the page belongs to the zone of a link exactly where the link is shown in it.
pub proof fn links_are_where_they_are_shown(
    row: Seq<MarkdownSpan>,
    pieces: Seq<VisibleMarkdownSpan>,
    i: int,
    at: (u16, u16),
    h_scroll: int,
    content_w: int,
    column: int,
)
    requires
        at.0 + content_w <= u16::MAX,
        0 <= column < content_w,
        0 <= h_scroll,
        row[pieces[i].span as int].link is Some,
    ensures
        (zone_of(row, pieces, i, at, h_scroll, content_w) matches Some(zone) && zone.x <= at.0
            + column < zone.x + zone.width) <==> columns_before(pieces, i) <= column + h_scroll
            < columns_before(pieces, i + 1),
        zone_of(row, pieces, i, at, h_scroll, content_w) matches Some(zone) ==> zone.link
            == row[pieces[i].span as int].link->0 && zone.y == at.1,
{
}

/// Every link on screen has its zone, and every zone is that of a link on screen.
pub proof fn every_link_has_its_zone(
    row: Seq<MarkdownSpan>,
    pieces: Seq<VisibleMarkdownSpan>,
    n: int,
    at: (u16, u16),
    h_scroll: int,
    content_w: int,
)
    requires
        0 <= n,
    ensures
        forall|i: int|
            0 <= i < n && (#[trigger] zone_of(row, pieces, i, at, h_scroll, content_w)) is Some
                ==> zones(row, pieces, n, at, h_scroll, content_w).contains(
                zone_of(row, pieces, i, at, h_scroll, content_w)->0,
            ),
        forall|k: int|
            0 <= k < zones(row, pieces, n, at, h_scroll, content_w).len() ==> exists|i: int|
                0 <= i < n && (#[trigger] zone_of(row, pieces, i, at, h_scroll, content_w)) == Some(
                    #[trigger] zones(row, pieces, n, at, h_scroll, content_w)[k],
                ),
    decreases n,
{
    if n > 0 {
        every_link_has_its_zone(row, pieces, n - 1, at, h_scroll, content_w);
        let before = zones(row, pieces, n - 1, at, h_scroll, content_w);
        let all = zones(row, pieces, n, at, h_scroll, content_w);
        assert forall|i: int|
            0 <= i < n && (#[trigger] zone_of(row, pieces, i, at, h_scroll, content_w))
                is Some implies all.contains(
            zone_of(row, pieces, i, at, h_scroll, content_w)->0,
        ) by {
            let zone = zone_of(row, pieces, i, at, h_scroll, content_w)->0;
            if i < n - 1 {
                assert(before.contains(zone));
                let k = choose|k: int| 0 <= k < before.len() && before[k] == zone;
                assert(all[k] == zone);
            } else {
                assert(all[before.len() as int] == zone);
            }
        }
        assert forall|k: int| 0 <= k < all.len() implies exists|i: int|
            0 <= i < n && (#[trigger] zone_of(row, pieces, i, at, h_scroll, content_w)) == Some(
                #[trigger] all[k],
            ) by {
            if k < before.len() {
                assert(all[k] == before[k]);
                let i = choose|i: int|
                    0 <= i < n - 1 && (#[trigger] zone_of(row, pieces, i, at, h_scroll, content_w))
                        == Some(before[k]);
                assert(zone_of(row, pieces, i, at, h_scroll, content_w) == Some(all[k]));
            } else {
                assert(zone_of(row, pieces, n - 1, at, h_scroll, content_w) == Some(all[k]));
            }
        }
    }
}

/// The mouse is on a piece exactly where the piece is shown under it.
pub proof fn pieces_are_under_the_mouse(
    x: u16,
    y: u16,
    at: (u16, u16),
    start: int,
    end: int,
    h_scroll: int,
    content_w: int,
)
    requires
        0 <= h_scroll,
        0 <= content_w,
    ensures
        lies_on(Some((x, y)), at, start, end, h_scroll, content_w) <==> y == at.1 && at.0 <= x
            < at.0 + content_w && start <= x - at.0 + h_scroll < end,
        !lies_on(None, at, start, end, h_scroll, content_w),
{
}

/// How the kinds of text look: headings are bold and in the accent colour, quotes and frames
/// faint, code in the accent colour, code blocks in their own colours, table headers bold, and
/// links in the accent colour and underlined.
pub proof fn kinds_of_text_look_apart(span: MarkdownSpan, th: Palette)
    requires
        span.syntax is None,
    ensures
        ({
            let style = look(span, th);
            &&& span.link is Some ==> style.fg == Some(th.accent) && style.underlined
            &&& span.link is None ==> {
                &&& span.role == MarkdownRole::Normal || span.role == MarkdownRole::TableHeader
                    ==> style.fg == Some(th.fg_primary)
                &&& span.role == MarkdownRole::Heading || span.role == MarkdownRole::Code
                    || span.role == MarkdownRole::Link ==> style.fg == Some(th.accent)
                &&& span.role == MarkdownRole::Quote || span.role == MarkdownRole::Border
                    ==> style.fg == Some(th.fg_secondary)
                &&& style.underlined <==> span.role == MarkdownRole::Link
            }
            &&& span.bold || span.role == MarkdownRole::Heading || span.role
                == MarkdownRole::TableHeader || span.role == MarkdownRole::CodeBlockHeader
                <==> style.bold
            &&& style.italic <==> span.italic
            &&& style.bg is Some <==> span.role == MarkdownRole::CodeBlockHeader || span.role
                == MarkdownRole::CodeBlockText
        }),
{
}

/// A row of a code block is filled up to the edge, and no other row is.
pub proof fn code_blocks_are_filled_up(row: Seq<MarkdownSpan>, th: Palette)
    ensures
        backdrop(row, th) is Some <==> exists|i: int|
            0 <= i < row.len() && ((#[trigger] row[i]).role == MarkdownRole::CodeBlockHeader
                || row[i].role == MarkdownRole::CodeBlockText),
{
    if backdrop(row, th) is Some {
        let i = choose|i: int| 0 <= i < row.len() && is_code_block((#[trigger] row[i]).role);
        assert(row[i].role == MarkdownRole::CodeBlockHeader || row[i].role
            == MarkdownRole::CodeBlockText);
    }
    if exists|i: int|
        0 <= i < row.len() && ((#[trigger] row[i]).role == MarkdownRole::CodeBlockHeader
            || row[i].role == MarkdownRole::CodeBlockText) {
        let i = choose|i: int|
            0 <= i < row.len() && ((#[trigger] row[i]).role == MarkdownRole::CodeBlockHeader
                || row[i].role == MarkdownRole::CodeBlockText);
        assert(is_code_block(row[i].role));
    }
}

/// The colours of code go before those of a role, and a link's before both.
pub proof fn colours_of_code_go_first(span: MarkdownSpan, syntax: TextStyle, th: Palette)
    requires
        span.syntax == Some(syntax),
    ensures
        ({
            let style = look(span, th);
            let bare = look(MarkdownSpan { syntax: None, ..span }, th);
            &&& span.link is None && syntax.fg is Some ==> style.fg == syntax.fg
            &&& span.link is None && syntax.fg is None ==> style.fg == bare.fg
            &&& span.link is Some ==> style.fg == Some(th.accent)
            &&& style.bg == bare.bg
            &&& style.bold <==> bare.bold || syntax.bold
            &&& style.italic <==> bare.italic || syntax.italic
            &&& style.underlined <==> bare.underlined || syntax.underlined
            &&& style.dim <==> bare.dim || syntax.dim
        }),
{
}

/// The colours of code blocks and of links under the mouse, on a dark and on a light
/// background. A code block is filled up with the colour that stands behind its text.
pub proof fn colours_follow_the_background(row: Seq<MarkdownSpan>, style: TextStyle, th: Palette)
    ensures
        th.is_dark ==> code_block_bg(&th) == Color::Rgb(36, 38, 46) && code_block_fg(&th)
            == Color::Rgb(230, 232, 238) && code_block_label_fg(&th) == Color::Rgb(150, 180, 205)
            && link_hover_fg(&th) == Color::Rgb(255, 220, 120),
        !th.is_dark ==> code_block_bg(&th) == Color::Rgb(246, 248, 250) && code_block_fg(&th)
            == th.fg_primary && code_block_label_fg(&th) == th.fg_secondary && link_hover_fg(&th)
            == Color::Rgb(130, 80, 223),
        link_hover_style(style, &th) == (TextStyle {
            fg: Some(link_hover_fg(&th)),
            bold: true,
            ..style
        }),
        backdrop(row, th) matches Some(color) ==> color == code_block_bg(&th),
{
}

/// One more piece takes its own columns behind those before it, and adds its own zone and no
/// other.
pub proof fn pieces_stand_side_by_side(
    row: Seq<MarkdownSpan>,
    pieces: Seq<VisibleMarkdownSpan>,
    n: int,
    at: (u16, u16),
    h_scroll: int,
    content_w: int,
)
    requires
        0 <= n < pieces.len(),
    ensures
        columns_before(pieces, 0) == 0,
        ({
            let sum = columns_before(pieces, n) + text_columns(pieces[n].text@);
            &&& sum <= usize::MAX ==> columns_before(pieces, n + 1) == sum
            &&& sum > usize::MAX ==> columns_before(pieces, n + 1) == usize::MAX
        }),
        zones(row, pieces, 0, at, h_scroll, content_w).len() == 0,
        ({
            let before = zones(row, pieces, n, at, h_scroll, content_w);
            let after = zones(row, pieces, n + 1, at, h_scroll, content_w);
            match zone_of(row, pieces, n, at, h_scroll, content_w) {
                Some(zone) => after == before.push(zone),
                None => after == before,
            }
        }),
{
}

} // verus!
