//! The outline of a JSON file.

use crate::geometry::Rect;
use crate::layout::{monus, smaller};
use crate::text::{align_right, blanks, right_aligned, spaces};
use crate::ui::preview::text::GUTTER_WIDTH;
use crate::ui::style::{shown_as, Color, Palette, StyledText, TextStyle};
use crate::ui::width::{text_columns, text_width};
use vstd::prelude::*;

verus! {

/// What a piece of JSON is.
#[derive(Clone, Copy, Debug, PartialEq, Eq, Structural)]
pub enum JsonSegmentRole {
    Key,
    Text,
    Number,
    Boolean,
    Null,
    Punctuation,
}

/// A piece of a row.
#[derive(Debug)]
pub struct JsonSegment {
    pub text: String,
    pub role: JsonSegmentRole,
}

/// A row of the outline. A node that can be closed has a mark between the two halves of
/// its row, and `collapsed` tells whether it is.
#[derive(Debug)]
pub struct JsonOutlineRow {
    pub line_number: usize,
    pub depth: usize,
    pub prefix_segments: Vec<JsonSegment>,
    pub collapsed: Option<bool>,
    pub suffix_segments: Vec<JsonSegment>,
}

/// The colour of a piece.
#[verifier::allow_in_spec]
pub fn segment_color(role: JsonSegmentRole, palette: &Palette) -> Color
    returns
        (match role {
            JsonSegmentRole::Key => palette.accent,
            JsonSegmentRole::Text => Color::Green,
            JsonSegmentRole::Number => Color::Yellow,
            JsonSegmentRole::Boolean => Color::Magenta,
            JsonSegmentRole::Null => palette.fg_secondary,
            JsonSegmentRole::Punctuation => palette.fg_primary,
        }),
{
    match role {
        JsonSegmentRole::Key => palette.accent,
        JsonSegmentRole::Text => Color::Green,
        JsonSegmentRole::Number => Color::Yellow,
        JsonSegmentRole::Boolean => Color::Magenta,
        JsonSegmentRole::Null => palette.fg_secondary,
        JsonSegmentRole::Punctuation => palette.fg_primary,
    }
}

/// The columns that the first `n` pieces take.
pub open spec fn segment_columns(segments: Seq<JsonSegment>, n: int) -> int
    decreases n,
{
    if n <= 0 {
        0
    } else {
        smaller(
            segment_columns(segments, n - 1) + text_columns(segments[n - 1].text@),
            usize::MAX as int,
        )
    }
}

/// The columns that the pieces take.
pub fn segment_width(segments: &Vec<JsonSegment>) -> (r: usize)
    ensures
        r == segment_columns(segments@, segments@.len() as int),
{
    let mut out: usize = 0;
    let mut i: usize = 0;
    while i < segments.len()
        invariant
            i <= segments@.len(),
            out == segment_columns(segments@, i as int),
        decreases segments@.len() - i,
    {
        out = out.saturating_add(text_width(segments[i].text.as_str()));
        i += 1;
    }
    out
}

/// The words and looks of the pieces.
pub open spec fn segment_looks(segments: Seq<JsonSegment>, palette: Palette) -> Seq<
    (Seq<char>, TextStyle),
> {
    Seq::new(
        segments.len(),
        |i: int|
            (
                segments[i].text@,
                TextStyle::plain().with_fg(segment_color(segments[i].role, &palette)),
            ),
    )
}

/// The words and looks of a row: its indent, the pieces before the mark, the mark, and the
/// pieces after it.
pub open spec fn row_looks(row: JsonOutlineRow, palette: Palette) -> Seq<(Seq<char>, TextStyle)> {
    let mark: Seq<(Seq<char>, TextStyle)> = match row.collapsed {
        Some(collapsed) => seq![
            (
                if collapsed {
                    "▸ "@
                } else {
                    "▾ "@
                },
                TextStyle::plain().with_fg(palette.fg_secondary),
            ),
        ],
        None => Seq::empty(),
    };
    seq![(blanks(row.depth * 4), TextStyle::plain())] + segment_looks(
        row.prefix_segments@,
        palette,
    ) + mark + segment_looks(row.suffix_segments@, palette)
}

fn push_segments(
    out: &mut Vec<StyledText>,
    segments: &Vec<JsonSegment>,
    palette: &Palette,
    done: Ghost<Seq<(Seq<char>, TextStyle)>>,
)
    requires
        shown_as(old(out)@, done@),
    ensures
        shown_as(final(out)@, done@ + segment_looks(segments@, *palette)),
{
    let ghost looks = segment_looks(segments@, *palette);
    let mut i: usize = 0;
    assert(done@ + looks.take(0) =~= done@);
    while i < segments.len()
        invariant
            i <= segments@.len(),
            looks == segment_looks(segments@, *palette),
            shown_as(out@, done@ + looks.take(i as int)),
        decreases segments@.len() - i,
    {
        let text = segments[i].text.clone();
        out.push(
            StyledText {
                text,
                style: TextStyle::plain().with_fg(segment_color(segments[i].role, palette)),
            },
        );
        proof {
            assert((done@ + looks.take(i + 1)) =~= (done@ + looks.take(i as int)).push(
                looks[i as int],
            ));
        }
        i += 1;
    }
    assert(looks.take(i as int) =~= looks);
}

/// The words and looks of a row.
pub fn row_tokens(row: &JsonOutlineRow, palette: &Palette) -> (r: Vec<StyledText>)
    requires
        row.depth * 4 <= usize::MAX,
    ensures
        shown_as(r@, row_looks(*row, *palette)),
{
    let mut out: Vec<StyledText> = Vec::new();
    out.push(StyledText { text: spaces(row.depth * 4), style: TextStyle::plain() });
    let ghost mut done: Seq<(Seq<char>, TextStyle)> = seq![
        (blanks(row.depth * 4), TextStyle::plain()),
    ];
    push_segments(&mut out, &row.prefix_segments, palette, Ghost(done));
    proof {
        done = done + segment_looks(row.prefix_segments@, *palette);
    }
    match row.collapsed {
        Some(collapsed) => {
            let mark = if collapsed {
                "▸ "
            } else {
                "▾ "
            };
            let style = TextStyle::plain().with_fg(palette.fg_secondary);
            out.push(StyledText { text: mark.to_string(), style });
            proof {
                done = done + seq![(mark@, style)];
            }
        },
        None => {
            assert(done + Seq::<(Seq<char>, TextStyle)>::empty() =~= done);
        },
    }
    push_segments(&mut out, &row.suffix_segments, palette, Ghost(done));
    out
}

/// The column of the mark that opens and closes a node.
pub open spec fn mark_column(row: JsonOutlineRow) -> int {
    smaller(
        row.depth * 4 + segment_columns(
            row.prefix_segments@,
            row.prefix_segments@.len() as int,
        ),
        usize::MAX as int,
    )
}

/// The cell of the mark, where a click opens or closes the node; none while it is
/// scrolled away.
pub fn mark_cell(row: &JsonOutlineRow, area: Rect, h_scroll: usize) -> (r: Option<u16>)
    requires
        row.depth * 4 <= usize::MAX,
        area.x + area.width <= u16::MAX,
    ensures
        r == (if row.collapsed is Some && h_scroll <= mark_column(*row) < smaller(
            h_scroll + monus(area.width as int, GUTTER_WIDTH as int),
            usize::MAX as int,
        ) {
            Some((area.x + GUTTER_WIDTH + mark_column(*row) - h_scroll) as u16)
        } else {
            None
        }),
{
    if row.collapsed.is_none() {
        return None;
    }
    let column: usize = (row.depth * 4).saturating_add(segment_width(&row.prefix_segments));
    let content_width: usize = (area.width as usize).saturating_sub(GUTTER_WIDTH as usize);
    if column >= h_scroll && column < h_scroll.saturating_add(content_width) {
        Some(area.x + GUTTER_WIDTH + (column - h_scroll) as u16)
    } else {
        None
    }
}

/// How far the outline can be scrolled, down and sideways.
pub fn outline_limits(row_count: usize, columns: usize, area: Rect, y: u16) -> (r: (usize, usize))
    ensures
        r.0 == monus(row_count as int, monus(area.y + area.height, y as int)),
        r.1 == monus(columns as int, monus(area.width as int, GUTTER_WIDTH as int)),
{
    let bottom: u32 = area.y as u32 + area.height as u32;
    let content_height: usize = bottom.saturating_sub(y as u32) as usize;
    let content_width: usize = (area.width as usize).saturating_sub(GUTTER_WIDTH as usize);
    (row_count.saturating_sub(content_height), columns.saturating_sub(content_width))
}

/// The screen row of a row of the outline, which is scrolled by `scroll` rows and begins
/// at `y`.
pub fn row_y(row: &JsonOutlineRow, scroll: usize, y: u16) -> (r: u16)
    requires
        scroll < row.line_number,
        y + (row.line_number - scroll - 1) <= u16::MAX,
    ensures
        r == y + (row.line_number - scroll - 1),
{
    y + (row.line_number - scroll - 1) as u16
}

/// The number of a row in the gutter.
pub fn row_gutter(row: &JsonOutlineRow) -> (r: String)
    ensures
        r@ == right_aligned(row.line_number as nat, 5).push(' '),
{
    let mut out = align_right(row.line_number, 5);
    out.push(' ');
    out
}

/// The mark lies in the part of the row that is on screen.
pub proof fn marks_stay_on_the_row(row: JsonOutlineRow, area: Rect, h_scroll: int)
    requires
        area.x + area.width <= u16::MAX,
        0 <= h_scroll <= mark_column(row) < h_scroll + monus(
            area.width as int,
            GUTTER_WIDTH as int,
        ),
    ensures
        area.x + GUTTER_WIDTH <= area.x + GUTTER_WIDTH + mark_column(row) - h_scroll < area.x
            + area.width,
{
}

/// A row is indented by four columns for each level, and a node that can be closed is marked
/// as open or closed between its two halves.
pub proof fn outlines_are_indented_and_marked(row: JsonOutlineRow, palette: Palette)
    ensures
        ({
            let words = row_looks(row, palette);
            let before = row.prefix_segments@.len() as int;
            let after = row.suffix_segments@.len() as int;
            let marks: int = if row.collapsed is Some {
                1
            } else {
                0
            };
            &&& words.len() == 1 + before + marks + after
            &&& words[0].0 == blanks(4 * row.depth)
            &&& row.collapsed == Some(true) ==> words[1 + before].0 == "▸ "@
            &&& row.collapsed == Some(false) ==> words[1 + before].0 == "▾ "@
            &&& forall|i: int|
                0 <= i < before ==> (#[trigger] words[1 + i]).0 == row.prefix_segments@[i].text@
                    && words[1 + i].1.fg == Some(
                    segment_color(row.prefix_segments@[i].role, &palette),
                )
            &&& forall|i: int|
                0 <= i < after ==> (#[trigger] words[1 + before + marks + i]).0
                    == row.suffix_segments@[i].text@ && words[1 + before + marks + i].1.fg == Some(
                    segment_color(row.suffix_segments@[i].role, &palette),
                )
        }),
{
}

/// The kinds of values are told apart by their colours.
pub proof fn values_are_told_apart(palette: Palette)
    ensures
        segment_color(JsonSegmentRole::Key, &palette) == palette.accent,
        segment_color(JsonSegmentRole::Text, &palette) == Color::Green,
        segment_color(JsonSegmentRole::Number, &palette) == Color::Yellow,
        segment_color(JsonSegmentRole::Boolean, &palette) == Color::Magenta,
        segment_color(JsonSegmentRole::Null, &palette) == palette.fg_secondary,
        segment_color(JsonSegmentRole::Punctuation, &palette) == palette.fg_primary,
{
}

/// One more piece takes its own columns after those of the pieces before it.
pub proof fn pieces_stand_side_by_side(segments: Seq<JsonSegment>, last: JsonSegment)
    ensures
        ({
            let n = segments.len() as int;
            let sum = segment_columns(segments, n) + text_columns(last.text@);
            let all = segment_columns(segments.push(last), n + 1);
            &&& sum <= usize::MAX ==> all == sum
            &&& sum > usize::MAX ==> all == usize::MAX
        }),
{
    lemma_columns_of_prefix(segments, last, segments.len() as int);
}

proof fn lemma_columns_of_prefix(segments: Seq<JsonSegment>, last: JsonSegment, n: int)
    requires
        0 <= n <= segments.len(),
    ensures
        segment_columns(segments.push(last), n) == segment_columns(segments, n),
    decreases n,
{
    if n > 0 {
        lemma_columns_of_prefix(segments, last, n - 1);
    }
}

/// The mark of a node stands right behind its first half, and that behind the indent.
pub proof fn marks_stand_behind_the_first_half(row: JsonOutlineRow)
    requires
        4 * row.depth + segment_columns(row.prefix_segments@, row.prefix_segments@.len() as int)
            <= usize::MAX,
    ensures
        mark_column(row) == 4 * row.depth + segment_columns(
            row.prefix_segments@,
            row.prefix_segments@.len() as int,
        ),
{
}

} // verus!
