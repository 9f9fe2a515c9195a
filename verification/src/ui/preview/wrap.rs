//! Breaking a line of prose into rows.

use crate::text::{chars_of, white_space};
use crate::ui::slices::{lemma_char_at, slice};
use crate::ui::width::{byte_at, byte_places, columns, columns_in, columns_of, lemma_byte_at_ends};
use std::ops::Range;
use vstd::prelude::*;

verus! {

/// Where a row that has reached `k`, with `used` columns taken, becomes too wide: the
/// place of the first character that does not fit, or the end of the text.
pub open spec fn fits_to(text: Seq<char>, k: int, used: int, max: int) -> int
    decreases text.len() - k,
{
    if k < 0 || k >= text.len() || used + columns(text[k]) > max {
        k
    } else {
        fits_to(text, k + 1, used + columns(text[k]), max)
    }
}

/// The last white space between `start` and `end`, not counting `start`; or `start` where
/// there is none.
pub open spec fn last_space(text: Seq<char>, start: int, end: int) -> int
    decreases end - start,
{
    if end <= start + 1 {
        start
    } else if white_space(text[end - 1]) {
        end - 1
    } else {
        last_space(text, start, end - 1)
    }
}

/// The place of the first character at or after `k` that is no white space.
pub open spec fn skip_spaces(text: Seq<char>, k: int) -> int
    decreases text.len() - k,
{
    if k < 0 || k >= text.len() || !white_space(text[k]) {
        k
    } else {
        skip_spaces(text, k + 1)
    }
}

/// Where a row that begins at `start` ends, where not all of the rest fits: at the last
/// white space that fits, and in the middle of a word where there is none. A single
/// character gets a row even if it is too wide.
pub open spec fn row_end(text: Seq<char>, start: int, max: int) -> int {
    let overflow = fits_to(text, start, 0, max);
    let space = last_space(text, start, overflow);
    let end = if white_space(text[overflow]) {
        overflow
    } else if space > start {
        space
    } else {
        overflow
    };
    if end == start {
        start + 1
    } else {
        end
    }
}

/// Where the row after one that ends at `end` begins. White space at the break is left
/// out, except after a character that did not fit at all.
pub open spec fn next_row(text: Seq<char>, start: int, max: int) -> int {
    let overflow = fits_to(text, start, 0, max);
    if overflow == start {
        start + 1
    } else {
        skip_spaces(text, row_end(text, start, max))
    }
}

/// The rows of a text from `start` on, each as the places of its first character and of
/// the one after its last.
pub open spec fn rows_from(text: Seq<char>, start: int, max: int) -> Seq<(int, int)>
    decreases text.len() - start,
{
    if start < 0 || start >= text.len() {
        Seq::empty()
    } else if fits_to(text, start, 0, max) >= text.len() {
        seq![(start, text.len() as int)]
    } else {
        let next = next_row(text, start, max);
        if next <= start || next > text.len() {
            Seq::empty()
        } else {
            seq![(start, row_end(text, start, max))] + rows_from(text, next, max)
        }
    }
}

/// The rows of a text. An empty one has one, and so has any text without a width to
/// break at.
pub open spec fn wrapped(text: Seq<char>, max: int) -> Seq<(int, int)> {
    if text.len() == 0 || max == 0 {
        seq![(0, text.len() as int)]
    } else {
        rows_from(text, 0, max)
    }
}

pub proof fn lemma_fits_to(text: Seq<char>, start: int, k: int, max: int)
    requires
        0 <= start <= k <= text.len(),
        columns_in(text.subrange(start, k)) <= max,
    ensures
        ({
            let used = columns_in(text.subrange(start, k));
            let end = fits_to(text, k, used, max);
            &&& k <= end <= text.len()
            &&& columns_in(text.subrange(start, end)) <= max
            &&& end < text.len() ==> columns_in(text.subrange(start, end)) + columns(text[end])
                > max
        }),
    decreases text.len() - k,
{
    if k < text.len() {
        let used = columns_in(text.subrange(start, k));
        if used + columns(text[k]) <= max {
            assert(text.subrange(start, k + 1).drop_last() =~= text.subrange(start, k));
            lemma_fits_to(text, start, k + 1, max);
        }
    }
}

pub proof fn lemma_last_space(text: Seq<char>, start: int, end: int)
    requires
        0 <= start <= end <= text.len(),
    ensures
        start <= last_space(text, start, end),
        last_space(text, start, end) > start ==> last_space(text, start, end) < end && white_space(
            text[last_space(text, start, end)],
        ),
    decreases end - start,
{
    if end > start + 1 && !white_space(text[end - 1]) {
        lemma_last_space(text, start, end - 1);
    }
}

pub proof fn lemma_skip_spaces(text: Seq<char>, k: int)
    requires
        0 <= k <= text.len(),
    ensures
        k <= skip_spaces(text, k) <= text.len(),
        forall|i: int| k <= i < skip_spaces(text, k) ==> white_space(#[trigger] text[i]),
        skip_spaces(text, k) < text.len() ==> !white_space(text[skip_spaces(text, k)]),
    decreases text.len() - k,
{
    if k < text.len() && white_space(text[k]) {
        lemma_skip_spaces(text, k + 1);
    }
}

/// A row ends after it begins, the next one begins after that, and only white space is
/// left out in between.
pub proof fn lemma_row(text: Seq<char>, start: int, max: int)
    requires
        0 <= start < text.len(),
        0 < max,
        fits_to(text, start, 0, max) < text.len(),
    ensures
        start < row_end(text, start, max) <= text.len(),
        row_end(text, start, max) <= next_row(text, start, max) <= text.len(),
        forall|i: int|
            row_end(text, start, max) <= i < next_row(text, start, max) ==> white_space(
                #[trigger] text[i],
            ),
        row_end(text, start, max) == start + 1 || row_end(text, start, max) <= fits_to(
            text,
            start,
            0,
            max,
        ),
{
    assert(text.subrange(start, start) =~= Seq::<char>::empty());
    lemma_fits_to(text, start, start, max);
    let overflow = fits_to(text, start, 0, max);
    lemma_last_space(text, start, overflow);
    let end = row_end(text, start, max);
    assert(start < end <= text.len());
    lemma_skip_spaces(text, end);
}

/// The ranges of bytes that these rows take.
pub open spec fn are_byte_ranges(
    ranges: Seq<Range<usize>>,
    text: Seq<char>,
    rows: Seq<(int, int)>,
) -> bool {
    &&& ranges.len() == rows.len()
    &&& forall|i: int|
        0 <= i < ranges.len() ==> (#[trigger] ranges[i]).start == byte_at(text, rows[i].0)
            && ranges[i].end == byte_at(text, rows[i].1)
}

fn overflow_at(chars: &Vec<char>, start: usize, max: usize) -> (r: (usize, usize))
    requires
        start < chars@.len(),
    ensures
        r.0 == fits_to(chars@, start as int, 0, max as int),
        start <= r.0 <= chars@.len(),
        r.1 == last_space(chars@, start as int, r.0 as int),
{
    let mut width: usize = 0;
    let mut k: usize = start;
    let mut space: usize = start;
    while k < chars.len()
        invariant
            start <= k <= chars@.len(),
            start < chars@.len(),
            width <= max,
            fits_to(chars@, start as int, 0, max as int) == fits_to(
                chars@,
                k as int,
                width as int,
                max as int,
            ),
            space == last_space(chars@, start as int, k as int),
        decreases chars@.len() - k,
    {
        let w: usize = columns_of(chars[k]);
        if w > max - width {
            return (k, space);
        }
        width += w;
        if chars[k].is_whitespace() && k > start {
            space = k;
        }
        k += 1;
    }
    (k, space)
}

/// Breaks a line of prose into rows of at most `max_width` columns, as ranges of its
/// bytes.
pub fn wrap_text_ranges(text: &str, max_width: usize) -> (r: Vec<Range<usize>>)
    ensures
        are_byte_ranges(r@, text@, wrapped(text@, max_width as int)),
{
    let chars = chars_of(text);
    let places = byte_places(text);
    let len: usize = chars.len();
    proof {
        lemma_byte_at_ends(text@);
    }
    if len == 0 || max_width == 0 {
        let all: Vec<Range<usize>> = vec![0..places[len]];
        assert(all@[0] == (Range { start: 0usize, end: places@[len as int] }));
        return all;
    }
    let mut ranges: Vec<Range<usize>> = Vec::new();
    let mut start: usize = 0;
    let ghost mut done: Seq<(int, int)> = Seq::empty();
    let ghost all = rows_from(text@, 0, max_width as int);
    assert(done + all =~= all);
    while start < len
        invariant
            start <= len == chars@.len(),
            chars@ == text@,
            max_width > 0,
            places@.len() == len + 1,
            forall|k: int| 0 <= k <= len ==> #[trigger] places@[k] == byte_at(text@, k),
            all == rows_from(text@, 0, max_width as int),
            done + rows_from(text@, start as int, max_width as int) == all,
            are_byte_ranges(ranges@, text@, done),
        decreases len - start,
    {
        let (overflow, space) = overflow_at(&chars, start, max_width);
        if overflow == len {
            ranges.push(places[start]..places[len]);
            proof {
                done = done.push((start as int, len as int));
                assert(done =~= all);
            }
            return ranges;
        }
        let ghost from = start as int;
        proof {
            lemma_row(text@, start as int, max_width as int);
        }
        let end: usize = if chars[overflow].is_whitespace() {
            overflow
        } else if space > start {
            space
        } else {
            overflow
        };
        if end == start {
            ranges.push(places[start]..places[start + 1]);
            start += 1;
        } else {
            ranges.push(places[start]..places[end]);
            start = end;
            while start < len && chars[start].is_whitespace()
                invariant
                    end <= start <= len == chars@.len(),
                    chars@ == text@,
                    skip_spaces(text@, end as int) == skip_spaces(text@, start as int),
                decreases len - start,
            {
                start += 1;
            }
        }
        proof {
            let row = (from, row_end(text@, from, max_width as int));
            assert(start == next_row(text@, from, max_width as int));
            let rest = rows_from(text@, start as int, max_width as int);
            assert(done + (seq![row] + rest) =~= done.push(row) + rest);
            done = done.push(row);
        }
    }
    assert(done =~= all);
    ranges
}

/// Whether these rows cut a text from `start` on well: in order, none empty, nothing but
/// white space left out, and none too wide unless it is a single character.
pub open spec fn cuts_well(rows: Seq<(int, int)>, text: Seq<char>, start: int, max: int) -> bool {
    &&& rows.len() > 0 ==> rows[0].0 == start
    &&& rows.len() == 0 ==> start >= text.len()
    &&& forall|i: int|
        0 <= i < rows.len() ==> start <= (#[trigger] rows[i]).0 < rows[i].1 <= text.len() && (
        columns_in(text.subrange(rows[i].0, rows[i].1)) <= max || rows[i].1 == rows[i].0 + 1)
    &&& forall|i: int, k: int|
        0 <= i < rows.len() && (#[trigger] rows[i]).1 <= k < (if i + 1 < rows.len() {
            rows[i + 1].0
        } else {
            text.len() as int
        }) ==> white_space(#[trigger] text[k])
    &&& forall|i: int| 0 <= i < rows.len() - 1 ==> (#[trigger] rows[i]).1 <= rows[i + 1].0
}

proof fn lemma_columns_grow(text: Seq<char>, start: int, j: int, k: int)
    requires
        0 <= start <= j <= k <= text.len(),
    ensures
        columns_in(text.subrange(start, j)) <= columns_in(text.subrange(start, k)),
    decreases k - j,
{
    if j < k {
        lemma_columns_grow(text, start, j, k - 1);
        assert(text.subrange(start, k).drop_last() =~= text.subrange(start, k - 1));
    }
}

proof fn lemma_rows_cut_well(text: Seq<char>, start: int, max: int)
    requires
        0 <= start <= text.len(),
        0 < max,
    ensures
        cuts_well(rows_from(text, start, max), text, start, max),
    decreases text.len() - start,
{
    let rows = rows_from(text, start, max);
    if start < text.len() {
        assert(text.subrange(start, start) =~= Seq::<char>::empty());
        lemma_fits_to(text, start, start, max);
        let overflow = fits_to(text, start, 0, max);
        if overflow < text.len() {
            lemma_row(text, start, max);
            let end = row_end(text, start, max);
            let next = next_row(text, start, max);
            lemma_rows_cut_well(text, next, max);
            let rest = rows_from(text, next, max);
            assert(rows =~= seq![(start, end)] + rest);
            if end != start + 1 {
                lemma_columns_grow(text, start, end, overflow);
            }
            assert forall|i: int| 0 <= i < rows.len() implies start <= (#[trigger] rows[i]).0
                < rows[i].1 <= text.len() && (columns_in(text.subrange(rows[i].0, rows[i].1)) <= max
                || rows[i].1 == rows[i].0 + 1) by {
                if i > 0 {
                    assert(rows[i] == rest[i - 1]);
                }
            }
            assert forall|i: int, k: int|
                0 <= i < rows.len() && (#[trigger] rows[i]).1 <= k < (if i + 1 < rows.len() {
                    rows[i + 1].0
                } else {
                    text.len() as int
                }) implies white_space(#[trigger] text[k]) by {
                if i > 0 {
                    assert(rows[i] == rest[i - 1]);
                    if i + 1 < rows.len() {
                        assert(rows[i + 1] == rest[i]);
                    }
                } else if rest.len() > 0 {
                    assert(rows[1] == rest[0]);
                }
            }
            assert forall|i: int| 0 <= i < rows.len() - 1 implies (#[trigger] rows[i]).1
                <= rows[i + 1].0 by {
                assert(rows[i + 1] == rest[i]);
                if i > 0 {
                    assert(rows[i] == rest[i - 1]);
                }
            }
        } else {
            assert(rows =~= seq![(start, text.len() as int)]);
        }
    }
}

/// Wrapped prose loses nothing but white space at the breaks: the rows follow each other
/// from the start of the text to its end, none is empty, and each fits the width unless
/// it is a single character.
pub proof fn wrapping_keeps_the_text(text: Seq<char>, max: int)
    requires
        text.len() > 0,
        max > 0,
    ensures
        cuts_well(wrapped(text, max), text, 0, max),
        wrapped(text, max).len() > 0,
{
    lemma_rows_cut_well(text, 0, max);
}

/// A text that fits is left in one piece.
pub proof fn short_texts_are_not_wrapped(text: Seq<char>, max: int)
    requires
        columns_in(text) <= max,
    ensures
        wrapped(text, max) == seq![(0int, text.len() as int)],
{
    if text.len() > 0 && max != 0 {
        assert(text.subrange(0, 0) =~= Seq::<char>::empty());
        lemma_all_fits(text, 0, max);
        assert(rows_from(text, 0, max) =~= seq![(0int, text.len() as int)]);
    }
}

proof fn lemma_all_fits(text: Seq<char>, k: int, max: int)
    requires
        0 <= k <= text.len(),
        columns_in(text) <= max,
    ensures
        fits_to(text, k, columns_in(text.subrange(0, k)), max) == text.len(),
    decreases text.len() - k,
{
    if k < text.len() {
        assert(text.subrange(0, k + 1).drop_last() =~= text.subrange(0, k));
        lemma_columns_grow(text, 0, k + 1, text.len() as int);
        assert(text.subrange(0, text.len() as int) =~= text);
        lemma_all_fits(text, k + 1, max);
    }
}

/// Nothing between `start` and `end` but `start` itself is white space, beyond the last.
proof fn lemma_last_space_is_last(text: Seq<char>, start: int, end: int)
    requires
        0 <= start <= end <= text.len(),
    ensures
        forall|k: int|
            last_space(text, start, end) < k < end ==> !white_space(#[trigger] text[k]),
    decreases end - start,
{
    if end > start + 1 && !white_space(text[end - 1]) {
        lemma_last_space_is_last(text, start, end - 1);
    }
}

/// Whether a row of a text that goes on breaks where it should: at the last white space
/// that it has room before, and otherwise in the middle of a word that fills the row.
pub open spec fn breaks_at_a_word(row: (int, int), text: Seq<char>, max: int) -> bool {
    let (start, end) = row;
    &&& end < text.len()
    &&& columns_in(text.subrange(start, text.len() as int)) > max
    &&& white_space(text[end]) || (forall|k: int|
        start < k < end ==> !white_space(#[trigger] text[k]))
    &&& white_space(text[end]) || columns_in(text.subrange(start, end + 1)) > max
    &&& forall|k: int|
        start < k < text.len() && columns_in(text.subrange(start, k)) <= max && white_space(
            #[trigger] text[k],
        ) ==> k <= end
}

proof fn lemma_row_breaks(text: Seq<char>, start: int, max: int)
    requires
        0 <= start < text.len(),
        0 < max,
        fits_to(text, start, 0, max) < text.len(),
    ensures
        row_end(text, start, max) < text.len() ==> breaks_at_a_word(
            (start, row_end(text, start, max)),
            text,
            max,
        ),
        columns_in(text.subrange(start, text.len() as int)) > max,
        row_end(text, start, max) == text.len() ==> start + 1 == text.len(),
        next_row(text, start, max) < text.len() ==> !white_space(
            text[next_row(text, start, max)],
        ) || columns(text[start]) > max,
{
    let len = text.len() as int;
    assert(text.subrange(start, start) =~= Seq::<char>::empty());
    lemma_fits_to(text, start, start, max);
    lemma_row(text, start, max);
    let overflow = fits_to(text, start, 0, max);
    let space = last_space(text, start, overflow);
    lemma_last_space(text, start, overflow);
    lemma_last_space_is_last(text, start, overflow);
    let end = row_end(text, start, max);
    assert(text.subrange(start, overflow + 1).drop_last() =~= text.subrange(start, overflow));
    assert(columns_in(text.subrange(start, overflow + 1)) > max);
    lemma_columns_grow(text, start, overflow + 1, len);
    lemma_skip_spaces(text, end);
    if end < len {
        if overflow == start {
            lemma_columns_grow(text, start, start + 1, end + 1);
        }
        assert forall|k: int|
            start < k < text.len() && columns_in(text.subrange(start, k)) <= max && white_space(
                #[trigger] text[k],
            ) implies k <= end by {
            if k > overflow {
                lemma_columns_grow(text, start, overflow + 1, k);
            }
        }
    }
}

proof fn lemma_rows_break(text: Seq<char>, start: int, max: int)
    requires
        0 <= start <= text.len(),
        0 < max,
    ensures
        forall|i: int|
            0 <= i < rows_from(text, start, max).len() - 1 ==> breaks_at_a_word(
                #[trigger] rows_from(text, start, max)[i],
                text,
                max,
            ),
        forall|i: int|
            0 <= i < rows_from(text, start, max).len() && columns_in(
                text.subrange((#[trigger] rows_from(text, start, max)[i]).0, text.len() as int),
            ) <= max ==> rows_from(text, start, max)[i].1 == text.len(),
        forall|i: int|
            0 < i < rows_from(text, start, max).len() ==> !white_space(
                text[(#[trigger] rows_from(text, start, max)[i]).0],
            ) || columns(text[rows_from(text, start, max)[i - 1].0]) > max,
    decreases text.len() - start,
{
    let rows = rows_from(text, start, max);
    if start < text.len() {
        assert(text.subrange(start, start) =~= Seq::<char>::empty());
        lemma_fits_to(text, start, start, max);
        if fits_to(text, start, 0, max) < text.len() {
            lemma_row(text, start, max);
            lemma_row_breaks(text, start, max);
            let end = row_end(text, start, max);
            let next = next_row(text, start, max);
            lemma_rows_break(text, next, max);
            let rest = rows_from(text, next, max);
            lemma_rows_cut_well(text, next, max);
            assert(rows =~= seq![(start, end)] + rest);
            assert forall|i: int| 0 <= i < rows.len() - 1 implies breaks_at_a_word(
                #[trigger] rows[i],
                text,
                max,
            ) by {
                if i > 0 {
                    assert(rows[i] == rest[i - 1]);
                }
            }
            assert forall|i: int|
                0 <= i < rows.len() && columns_in(
                    text.subrange((#[trigger] rows[i]).0, text.len() as int),
                ) <= max implies rows[i].1 == text.len() by {
                if i > 0 {
                    assert(rows[i] == rest[i - 1]);
                }
            }
            assert forall|i: int| 0 < i < rows.len() implies !white_space(
                text[(#[trigger] rows[i]).0],
            ) || columns(text[rows[i - 1].0]) > max by {
                assert(rows[i] == rest[i - 1]);
                if i > 1 {
                    assert(rows[i - 1] == rest[i - 2]);
                }
            }
        } else {
            assert(rows =~= seq![(start, text.len() as int)]);
        }
    }
}

/// A break never falls inside a word that could have been kept whole. Every row but the
/// last ends before white space, or holds none after its first character; it ends at the
/// last white space that still fits; and where it ends inside a word, one more character
/// would be too wide. What fits on one row whole stays on it, and a row begins with white
/// space only after a character that is too wide for any row.
pub proof fn breaks_fall_between_words(text: Seq<char>, max: int)
    requires
        text.len() > 0,
        max > 0,
    ensures
        ({
            let rows = wrapped(text, max);
            &&& forall|i: int|
                0 <= i < rows.len() - 1 ==> (#[trigger] rows[i]).1 < text.len() && (white_space(
                    text[rows[i].1],
                ) || (forall|k: int|
                    rows[i].0 < k < rows[i].1 ==> !white_space(#[trigger] text[k])))
            &&& forall|i: int, k: int|
                0 <= i < rows.len() - 1 && (#[trigger] rows[i]).0 < k < text.len() && columns_in(
                    text.subrange(rows[i].0, k),
                ) <= max && white_space(#[trigger] text[k]) ==> k <= rows[i].1
            &&& forall|i: int|
                0 <= i < rows.len() - 1 ==> white_space(text[(#[trigger] rows[i]).1])
                    || columns_in(text.subrange(rows[i].0, rows[i].1 + 1)) > max
            &&& forall|i: int|
                0 <= i < rows.len() && columns_in(
                    text.subrange((#[trigger] rows[i]).0, text.len() as int),
                ) <= max ==> i == rows.len() - 1 && rows[i].1 == text.len()
            &&& forall|i: int|
                0 < i < rows.len() ==> !white_space(text[(#[trigger] rows[i]).0]) || columns(
                    text[rows[i - 1].0],
                ) > max
        }),
{
    lemma_rows_break(text, 0, max);
    lemma_rows_cut_well(text, 0, max);
}

/// Without a width there is nothing to break at, and an empty text has its one row.
pub proof fn nothing_is_broken_without_a_width(text: Seq<char>, max: int)
    requires
        text.len() == 0 || max == 0,
    ensures
        wrapped(text, max) == seq![(0int, text.len() as int)],
{
}

/// The bytes that a row is given by are those of its characters.
pub proof fn rows_are_given_by_their_bytes(
    ranges: Seq<Range<usize>>,
    text: Seq<char>,
    rows: Seq<(int, int)>,
    i: int,
)
    requires
        are_byte_ranges(ranges, text, rows),
        0 <= i < rows.len(),
        0 <= rows[i].0 <= rows[i].1 <= text.len(),
    ensures
        ranges.len() == rows.len(),
        slice(text, ranges[i].start as int, ranges[i].end as int) == text.subrange(
            rows[i].0,
            rows[i].1,
        ),
{
    lemma_char_at(text, rows[i].0);
    lemma_char_at(text, rows[i].1);
}

} // verus!
