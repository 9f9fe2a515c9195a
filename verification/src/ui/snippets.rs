//! Lines of code in a list: cut to the room there is, with the symbol marked.

use crate::text::{begins_at, begins_with, chars_of, string_of};
use crate::ui::preview::wrap::{fits_to, lemma_fits_to};
use crate::ui::slices::{
    is_boundary, lemma_cut_order, lemma_slice_joins, lemma_whole, slice, slice_bytes,
};
use crate::ui::style::{StyledText, TextStyle};
use crate::ui::width::{
    byte_at, byte_places, bytes_in, columns, columns_in, columns_of, lemma_byte_at_ends,
    text_columns, text_width,
};
use vstd::prelude::*;

verus! {

/// What stands for the part of a text that was cut off.
pub const ELLIPSIS: char = '…';

/// A text cut to `max` columns, with an ellipsis for its end where there is no room for
/// it.
pub open spec fn cut_end(text: Seq<char>, max: int) -> Seq<char> {
    if text_columns(text) <= max {
        text
    } else if max == 0 {
        Seq::empty()
    } else {
        text.take(fits_to(text, 0, 0, max - 1)).push(ELLIPSIS)
    }
}

/// Cuts a text to `max_width` columns, with an ellipsis for its end where there is no room
/// for it.
pub fn truncate_end(text: &str, max_width: usize) -> (r: String)
    ensures
        r@ == cut_end(text@, max_width as int),
{
    if text_width(text) <= max_width {
        return text.to_string();
    }
    if max_width == 0 {
        let out = String::new();
        assert(out@ =~= Seq::<char>::empty());
        return out;
    }
    let chars = chars_of(text);
    let room: usize = max_width - 1;
    let mut width: usize = 0;
    let mut k: usize = 0;
    while k < chars.len() && columns_of(chars[k]) <= room - width
        invariant
            k <= chars@.len(),
            width <= room,
            fits_to(chars@, 0, 0, room as int) == fits_to(
                chars@,
                k as int,
                width as int,
                room as int,
            ),
        decreases chars@.len() - k,
    {
        width += columns_of(chars[k]);
        k += 1;
    }
    let mut out = string_of(&chars, 0, k);
    assert(out@ =~= text@.take(k as int));
    out.push(ELLIPSIS);
    out
}

/// Where the end of a text that fits `max` columns begins, if what lies after `k` takes
/// `used` of them.
pub open spec fn fits_back_to(text: Seq<char>, k: int, used: int, max: int) -> int
    decreases k,
{
    if k <= 0 || k > text.len() || used + columns(text[k - 1]) > max {
        k
    } else {
        fits_back_to(text, k - 1, used + columns(text[k - 1]), max)
    }
}

/// A text cut to `max` columns, with an ellipsis for its start where there is no room for
/// it.
pub open spec fn cut_start(text: Seq<char>, max: int) -> Seq<char> {
    if text_columns(text) <= max {
        text
    } else if max == 0 {
        Seq::empty()
    } else {
        seq![ELLIPSIS] + text.skip(fits_back_to(text, text.len() as int, 0, max - 1))
    }
}

/// Cuts a text to `max_width` columns, with an ellipsis for its start where there is no
/// room for it.
pub fn truncate_start(text: &str, max_width: usize) -> (r: String)
    ensures
        r@ == cut_start(text@, max_width as int),
{
    if text_width(text) <= max_width {
        return text.to_string();
    }
    if max_width == 0 {
        let out = String::new();
        assert(out@ =~= Seq::<char>::empty());
        return out;
    }
    let chars = chars_of(text);
    let room: usize = max_width - 1;
    let mut width: usize = 0;
    let mut k: usize = chars.len();
    while k > 0 && columns_of(chars[k - 1]) <= room - width
        invariant
            k <= chars@.len(),
            width <= room,
            fits_back_to(chars@, chars@.len() as int, 0, room as int) == fits_back_to(
                chars@,
                k as int,
                width as int,
                room as int,
            ),
        decreases k,
    {
        width += columns_of(chars[k - 1]);
        k -= 1;
    }
    let mut out = String::new();
    out.push(ELLIPSIS);
    let rest = string_of(&chars, k, chars.len());
    out.push_str(rest.as_str());
    assert(out@ =~= seq![ELLIPSIS] + text@.skip(k as int));
    out
}

proof fn lemma_columns_from_front(text: Seq<char>)
    requires
        text.len() > 0,
    ensures
        columns_in(text) == columns(text[0]) + columns_in(text.skip(1)),
    decreases text.len(),
{
    if text.len() == 1 {
        assert(text.drop_last() =~= Seq::<char>::empty());
        assert(text.skip(1) =~= Seq::<char>::empty());
    } else {
        lemma_columns_from_front(text.drop_last());
        assert(text.drop_last().skip(1) =~= text.skip(1).drop_last());
    }
}

proof fn lemma_fits_back_to(text: Seq<char>, k: int, max: int)
    requires
        0 <= k <= text.len(),
        columns_in(text.skip(k)) <= max,
    ensures
        ({
            let start = fits_back_to(text, k, columns_in(text.skip(k)), max);
            &&& 0 <= start <= k
            &&& columns_in(text.skip(start)) <= max
        }),
    decreases k,
{
    if k > 0 && columns_in(text.skip(k)) + columns(text[k - 1]) <= max {
        lemma_columns_from_front(text.skip(k - 1));
        assert(text.skip(k - 1).skip(1) =~= text.skip(k));
        lemma_fits_back_to(text, k - 1, max);
    }
}

/// A text that is cut leaves a column for the ellipsis, and what is kept of it is its
/// beginning or its end.
pub proof fn cut_texts_leave_room(text: Seq<char>, max: int)
    requires
        text_columns(text) > max > 0,
    ensures
        ({
            let kept = cut_end(text, max).drop_last();
            &&& cut_end(text, max).last() == ELLIPSIS
            &&& kept.len() <= text.len()
            &&& kept == text.take(kept.len() as int)
            &&& columns_in(kept) + 1 <= max
        }),
        ({
            let kept = cut_start(text, max).skip(1);
            &&& cut_start(text, max)[0] == ELLIPSIS
            &&& kept.len() <= text.len()
            &&& kept == text.skip(text.len() - kept.len())
            &&& columns_in(kept) + 1 <= max
        }),
{
    assert(text.subrange(0, 0) =~= Seq::<char>::empty());
    lemma_fits_to(text, 0, 0, max - 1);
    let end = fits_to(text, 0, 0, max - 1);
    assert(text.subrange(0, end) =~= text.take(end));
    assert(cut_end(text, max).drop_last() =~= text.take(end));
    assert(text.skip(text.len() as int) =~= Seq::<char>::empty());
    lemma_fits_back_to(text, text.len() as int, max - 1);
    let start = fits_back_to(text, text.len() as int, 0, max - 1);
    assert(cut_start(text, max).skip(1) =~= text.skip(start));
}

/// The place at or after `from` where `symbol` next stands in the text, or none.
pub open spec fn next_match(text: Seq<char>, symbol: Seq<char>, from: int) -> Option<int>
    decreases text.len() + 1 - from,
{
    if from < 0 || from > text.len() {
        None
    } else if begins_with(text.skip(from), symbol) {
        Some(from)
    } else {
        next_match(text, symbol, from + 1)
    }
}

proof fn lemma_next_match(text: Seq<char>, symbol: Seq<char>, from: int)
    requires
        0 <= from <= text.len() + 1,
    ensures
        next_match(text, symbol, from) matches Some(k) ==> from <= k && k + symbol.len()
            <= text.len() && text.subrange(k, k + symbol.len()) == symbol,
    decreases text.len() + 1 - from,
{
    if from <= text.len() {
        if begins_with(text.skip(from), symbol) {
            assert(text.skip(from).take(symbol.len() as int) =~= text.subrange(
                from,
                from + symbol.len(),
            ));
        } else {
            lemma_next_match(text, symbol, from + 1);
        }
    }
}

/// The text from `from` on, cut at the places where `symbol` stands. The flags tell which
/// pieces are the symbol.
pub open spec fn marked(text: Seq<char>, symbol: Seq<char>, from: int) -> Seq<(Seq<char>, bool)>
    decreases text.len() - from,
{
    match next_match(text, symbol, from) {
        Some(k) if symbol.len() > 0 && from <= k && k + symbol.len() <= text.len() => {
            let before = if k > from {
                seq![(text.subrange(from, k), false)]
            } else {
                Seq::empty()
            };
            before + seq![(symbol, true)] + marked(text, symbol, k + symbol.len())
        },
        _ => if 0 <= from < text.len() {
            seq![(text.skip(from), false)]
        } else {
            Seq::empty()
        },
    }
}

/// A snippet with every occurrence of the symbol marked.
pub open spec fn marked_snippet(snippet: Seq<char>, symbol: Seq<char>) -> Seq<
    (Seq<char>, bool),
> {
    if symbol.len() == 0 || snippet.len() == 0 {
        seq![(snippet, false)]
    } else {
        marked(snippet, symbol, 0)
    }
}

/// Whether these are the pieces, in the looks they have.
pub open spec fn are_pieces(
    spans: Seq<StyledText>,
    pieces: Seq<(Seq<char>, bool)>,
    normal: TextStyle,
    highlighted: TextStyle,
) -> bool {
    &&& spans.len() == pieces.len()
    &&& forall|i: int|
        0 <= i < spans.len() ==> (#[trigger] spans[i]).text@ == pieces[i].0 && spans[i].style == (
        if pieces[i].1 {
            highlighted
        } else {
            normal
        })
}

fn find_match(chars: &Vec<char>, symbol: &Vec<char>, from: usize) -> (r: Option<usize>)
    requires
        from <= chars@.len(),
    ensures
        match r {
            Some(k) => next_match(chars@, symbol@, from as int) == Some(k as int),
            None => next_match(chars@, symbol@, from as int) is None,
        },
{
    let len: usize = chars.len();
    let mut k: usize = from;
    loop
        invariant
            from <= k <= len == chars@.len(),
            next_match(chars@, symbol@, from as int) == next_match(chars@, symbol@, k as int),
        decreases len - k,
    {
        if begins_at(chars, k, symbol) {
            return Some(k);
        }
        if k == len {
            assert(next_match(chars@, symbol@, k + 1) is None);
            return None;
        }
        k += 1;
    }
}

/// Cuts a snippet into pieces, with every occurrence of the symbol a piece of its own.
pub fn compact_snippet_spans(
    snippet: &str,
    symbol: &str,
    normal_style: TextStyle,
    symbol_style: TextStyle,
) -> (r: Vec<StyledText>)
    ensures
        are_pieces(r@, marked_snippet(snippet@, symbol@), normal_style, symbol_style),
{
    let chars = chars_of(snippet);
    let wanted = chars_of(symbol);
    let len: usize = chars.len();
    let mut spans: Vec<StyledText> = Vec::new();
    if wanted.len() == 0 || len == 0 {
        spans.push(StyledText { text: snippet.to_string(), style: normal_style });
        return spans;
    }
    let mut cursor: usize = 0;
    let ghost mut done: Seq<(Seq<char>, bool)> = Seq::empty();
    let ghost all = marked(snippet@, symbol@, 0);
    assert(done + all =~= all);
    loop
        invariant
            cursor <= len == chars@.len(),
            chars@ == snippet@,
            wanted@ == symbol@,
            wanted@.len() > 0,
            all == marked(snippet@, symbol@, 0),
            done + marked(snippet@, symbol@, cursor as int) == all,
            are_pieces(spans@, done, normal_style, symbol_style),
        ensures
            cursor <= len,
            next_match(snippet@, symbol@, cursor as int) is None,
            done + marked(snippet@, symbol@, cursor as int) == all,
            are_pieces(spans@, done, normal_style, symbol_style),
        decreases len - cursor,
    {
        proof {
            lemma_next_match(snippet@, symbol@, cursor as int);
        }
        match find_match(&chars, &wanted, cursor) {
            None => {
                break;
            },
            Some(start) => {
                let ghost rest = marked(snippet@, symbol@, start + symbol@.len());
                let ghost before = done;
                if start > cursor {
                    spans.push(
                        StyledText {
                            text: string_of(&chars, cursor, start),
                            style: normal_style,
                        },
                    );
                    proof {
                        done = done.push((snippet@.subrange(cursor as int, start as int), false));
                    }
                }
                let end: usize = start + wanted.len();
                spans.push(
                    StyledText { text: string_of(&chars, start, end), style: symbol_style },
                );
                proof {
                    done = done.push((symbol@, true));
                    assert(done + rest =~= before + marked(snippet@, symbol@, cursor as int));
                }
                cursor = end;
            },
        }
    }
    if cursor < len {
        let text = string_of(&chars, cursor, len);
        assert(text@ =~= snippet@.skip(cursor as int));
        spans.push(StyledText { text, style: normal_style });
        proof {
            done = done.push((snippet@.skip(cursor as int), false));
        }
    }
    assert(done =~= all);
    spans
}

/// The texts of the pieces, one after another.
pub open spec fn pieces_joined(pieces: Seq<(Seq<char>, bool)>) -> Seq<char>
    decreases pieces.len(),
{
    if pieces.len() == 0 {
        Seq::empty()
    } else {
        pieces[0].0 + pieces_joined(pieces.skip(1))
    }
}

proof fn lemma_joined_concat(a: Seq<(Seq<char>, bool)>, b: Seq<(Seq<char>, bool)>)
    ensures
        pieces_joined(a + b) == pieces_joined(a) + pieces_joined(b),
    decreases a.len(),
{
    if a.len() == 0 {
        assert(a + b =~= b);
        assert(pieces_joined(a) + pieces_joined(b) =~= pieces_joined(b));
    } else {
        lemma_joined_concat(a.skip(1), b);
        assert((a + b).skip(1) =~= a.skip(1) + b);
        assert(pieces_joined(a + b) =~= pieces_joined(a) + pieces_joined(b));
    }
}

proof fn lemma_joined_one(piece: (Seq<char>, bool))
    ensures
        pieces_joined(seq![piece]) == piece.0,
{
    reveal_with_fuel(pieces_joined, 2);
    assert(seq![piece].skip(1) =~= Seq::<(Seq<char>, bool)>::empty());
    assert(piece.0 + Seq::<char>::empty() =~= piece.0);
}

proof fn lemma_marked_joins(text: Seq<char>, symbol: Seq<char>, from: int)
    requires
        0 <= from <= text.len(),
        symbol.len() > 0,
    ensures
        pieces_joined(marked(text, symbol, from)) == text.skip(from),
    decreases text.len() - from,
{
    lemma_next_match(text, symbol, from);
    match next_match(text, symbol, from) {
        Some(k) => {
            let end = k + symbol.len();
            lemma_marked_joins(text, symbol, end);
            let before: Seq<(Seq<char>, bool)> = if k > from {
                seq![(text.subrange(from, k), false)]
            } else {
                Seq::empty()
            };
            if k > from {
                lemma_joined_one((text.subrange(from, k), false));
            }
            lemma_joined_one((symbol, true));
            lemma_joined_concat(before, seq![(symbol, true)]);
            lemma_joined_concat(before + seq![(symbol, true)], marked(text, symbol, end));
            assert(pieces_joined(marked(text, symbol, from)) =~= text.skip(from));
        },
        None => {
            if from < text.len() {
                lemma_joined_one((text.skip(from), false));
            } else {
                assert(text.skip(from) =~= Seq::<char>::empty());
            }
        },
    }
}

/// Marking a symbol changes nothing in the text: the pieces are, one after another, the
/// snippet.
pub proof fn marking_keeps_the_snippet(snippet: Seq<char>, symbol: Seq<char>)
    ensures
        pieces_joined(marked_snippet(snippet, symbol)) == snippet,
{
    if symbol.len() == 0 || snippet.len() == 0 {
        lemma_joined_one((snippet, false));
    } else {
        lemma_marked_joins(snippet, symbol, 0);
        assert(snippet.skip(0) =~= snippet);
    }
}

/// A snippet with the bytes from `start` to `end` marked, if it can be cut there.
pub open spec fn marked_range(snippet: Seq<char>, start: int, end: int) -> Seq<
    (Seq<char>, bool),
> {
    if start >= end || !is_boundary(snippet, start) || !is_boundary(snippet, end) {
        seq![(snippet, false)]
    } else {
        let len = bytes_in(snippet);
        let before: Seq<(Seq<char>, bool)> = if start > 0 {
            seq![(slice(snippet, 0, start), false)]
        } else {
            Seq::empty()
        };
        let after: Seq<(Seq<char>, bool)> = if end < len {
            seq![(slice(snippet, end, len), false)]
        } else {
            Seq::empty()
        };
        before + seq![(slice(snippet, start, end), true)] + after
    }
}

fn begins_char(text: Ghost<Seq<char>>, places: &Vec<usize>, b: usize) -> (r: bool)
    requires
        places@.len() == text@.len() + 1,
        forall|k: int| 0 <= k <= text@.len() ==> #[trigger] places@[k] == byte_at(text@, k),
    ensures
        r == is_boundary(text@, b as int),
{
    let mut i: usize = 0;
    while i < places.len()
        invariant
            i <= places@.len() == text@.len() + 1,
            forall|k: int| 0 <= k <= text@.len() ==> #[trigger] places@[k] == byte_at(text@, k),
            forall|k: int| 0 <= k < i ==> #[trigger] byte_at(text@, k) != b,
        decreases places@.len() - i,
    {
        assert(places@[i as int] == byte_at(text@, i as int));
        if places[i] == b {
            return true;
        }
        i += 1;
    }
    false
}

/// Cuts a snippet into pieces, with the bytes from `start` to `end` a piece of their own.
/// A range that is empty, or does not lie between characters of the snippet, marks
/// nothing.
pub fn exact_snippet_spans(
    snippet: &str,
    start: usize,
    end: usize,
    normal_style: TextStyle,
    match_style: TextStyle,
) -> (r: Vec<StyledText>)
    ensures
        are_pieces(
            r@,
            marked_range(snippet@, start as int, end as int),
            normal_style,
            match_style,
        ),
{
    let mut spans: Vec<StyledText> = Vec::new();
    let places = byte_places(snippet);
    let len: usize = places[places.len() - 1];
    proof {
        lemma_byte_at_ends(snippet@);
        lemma_whole(snippet@);
    }
    if start >= end || !begins_char(Ghost(snippet@), &places, start) || !begins_char(
        Ghost(snippet@),
        &places,
        end,
    ) {
        spans.push(StyledText { text: snippet.to_string(), style: normal_style });
        return spans;
    }
    proof {
        lemma_cut_order(snippet@, start as int, end as int);
    }
    if start > 0 {
        spans.push(StyledText { text: slice_bytes(snippet, 0, start), style: normal_style });
    }
    spans.push(StyledText { text: slice_bytes(snippet, start, end), style: match_style });
    if end < len {
        spans.push(StyledText { text: slice_bytes(snippet, end, len), style: normal_style });
    }
    spans
}

/// Marking a range changes nothing in the text either.
pub proof fn marked_ranges_keep_the_snippet(snippet: Seq<char>, start: int, end: int)
    requires
        0 <= start,
    ensures
        pieces_joined(marked_range(snippet, start, end)) == snippet,
{
    let len = bytes_in(snippet);
    if start >= end || !is_boundary(snippet, start) || !is_boundary(snippet, end) {
        lemma_joined_one((snippet, false));
    } else {
        lemma_whole(snippet);
        lemma_cut_order(snippet, start, end);
        lemma_slice_joins(snippet, 0, start, end);
        lemma_slice_joins(snippet, 0, end, len);
        let before: Seq<(Seq<char>, bool)> = if start > 0 {
            seq![(slice(snippet, 0, start), false)]
        } else {
            Seq::empty()
        };
        let after: Seq<(Seq<char>, bool)> = if end < len {
            seq![(slice(snippet, end, len), false)]
        } else {
            Seq::empty()
        };
        let mid = seq![(slice(snippet, start, end), true)];
        lemma_joined_one((slice(snippet, 0, start), false));
        lemma_joined_one((slice(snippet, start, end), true));
        lemma_joined_one((slice(snippet, end, len), false));
        lemma_joined_concat(before, mid);
        lemma_joined_concat(before + mid, after);
        assert(pieces_joined(before) =~= slice(snippet, 0, start));
        assert(pieces_joined(after) =~= slice(snippet, end, len));
        assert(pieces_joined(marked_range(snippet, start, end)) =~= snippet);
    }
}

/// A text that is cut keeps as much as there is room for: one character more, and with the
/// ellipsis it would be too wide. A text that fits is left alone.
pub proof fn cut_texts_keep_all_they_can(text: Seq<char>, max: int)
    requires
        max >= 0,
    ensures
        text_columns(text) <= max ==> cut_end(text, max) == text && cut_start(text, max) == text,
        text_columns(text) > max == 0 ==> cut_end(text, max).len() == 0 && cut_start(
            text,
            max,
        ).len() == 0,
        text_columns(text) > max > 0 ==> ({
            let kept = cut_end(text, max).len() - 1;
            kept < text.len() ==> columns_in(text.take(kept + 1)) + 1 > max
        }),
        text_columns(text) > max > 0 ==> ({
            let kept = cut_start(text, max).len() - 1;
            kept < text.len() ==> columns_in(text.skip(text.len() - kept - 1)) + 1 > max
        }),
{
    if text_columns(text) > max > 0 {
        cut_texts_leave_room(text, max);
        assert(text.subrange(0, 0) =~= Seq::<char>::empty());
        lemma_fits_to(text, 0, 0, max - 1);
        let end = fits_to(text, 0, 0, max - 1);
        assert(text.subrange(0, end) =~= text.take(end));
        if end < text.len() {
            assert(text.take(end + 1).drop_last() =~= text.take(end));
        }
        assert(text.skip(text.len() as int) =~= Seq::<char>::empty());
        lemma_fits_back_stops(text, text.len() as int, max - 1);
    }
}

proof fn lemma_fits_back_stops(text: Seq<char>, k: int, max: int)
    requires
        0 <= k <= text.len(),
        columns_in(text.skip(k)) <= max,
    ensures
        ({
            let start = fits_back_to(text, k, columns_in(text.skip(k)), max);
            &&& 0 <= start <= k
            &&& start > 0 ==> columns_in(text.skip(start - 1)) > max
        }),
    decreases k,
{
    if k > 0 {
        lemma_columns_from_front(text.skip(k - 1));
        assert(text.skip(k - 1).skip(1) =~= text.skip(k));
        if columns_in(text.skip(k)) + columns(text[k - 1]) <= max {
            lemma_fits_back_stops(text, k - 1, max);
        }
    }
}

proof fn lemma_next_match_is_first(text: Seq<char>, symbol: Seq<char>, from: int, at: int)
    requires
        0 <= from <= at <= text.len(),
        begins_with(text.skip(at), symbol),
    ensures
        next_match(text, symbol, from) matches Some(k) && k <= at,
    decreases at - from,
{
    if from < at && !begins_with(text.skip(from), symbol) {
        lemma_next_match_is_first(text, symbol, from + 1, at);
    }
}

/// Whether the symbol stands somewhere in the text.
pub open spec fn has_symbol(text: Seq<char>, symbol: Seq<char>) -> bool {
    exists|at: int|
        0 <= at && at + symbol.len() <= text.len() && #[trigger] text.subrange(
            at,
            at + symbol.len(),
        ) == symbol
}

/// A piece that reaches no further than the next match has no symbol in it.
proof fn lemma_gap_has_no_symbol(text: Seq<char>, symbol: Seq<char>, from: int, end: int)
    requires
        0 <= from <= end <= text.len(),
        symbol.len() > 0,
        next_match(text, symbol, from) matches Some(k) ==> k >= end,
    ensures
        !has_symbol(text.subrange(from, end), symbol),
{
    let piece = text.subrange(from, end);
    if has_symbol(piece, symbol) {
        let at = choose|at: int|
            0 <= at && at + symbol.len() <= piece.len() && #[trigger] piece.subrange(
                at,
                at + symbol.len(),
            ) == symbol;
        assert(piece.subrange(at, at + symbol.len()) =~= text.skip(from + at).take(
            symbol.len() as int,
        ));
        assert(begins_with(text.skip(from + at), symbol));
        lemma_next_match_is_first(text, symbol, from, from + at);
    }
}

proof fn lemma_marks_are_the_symbol(text: Seq<char>, symbol: Seq<char>, from: int)
    requires
        0 <= from <= text.len(),
        symbol.len() > 0,
    ensures
        forall|i: int|
            0 <= i < marked(text, symbol, from).len() ==> if (#[trigger] marked(
                text,
                symbol,
                from,
            )[i]).1 {
                marked(text, symbol, from)[i].0 == symbol
            } else {
                !has_symbol(marked(text, symbol, from)[i].0, symbol)
            },
    decreases text.len() - from,
{
    lemma_next_match(text, symbol, from);
    let all = marked(text, symbol, from);
    match next_match(text, symbol, from) {
        Some(k) => {
            let end = k + symbol.len();
            lemma_marks_are_the_symbol(text, symbol, end);
            lemma_gap_has_no_symbol(text, symbol, from, k);
            let before: Seq<(Seq<char>, bool)> = if k > from {
                seq![(text.subrange(from, k), false)]
            } else {
                Seq::empty()
            };
            let rest = marked(text, symbol, end);
            assert(all =~= before + seq![(symbol, true)] + rest);
            assert forall|i: int| 0 <= i < all.len() implies if (#[trigger] all[i]).1 {
                all[i].0 == symbol
            } else {
                !has_symbol(all[i].0, symbol)
            } by {
                if i > before.len() {
                    assert(all[i] == rest[i - before.len() - 1]);
                }
            }
        },
        None => {
            lemma_gap_has_no_symbol(text, symbol, from, text.len() as int);
            assert(text.skip(from) =~= text.subrange(from, text.len() as int));
        },
    }
}

/// Every place where the symbol stands is marked, and nothing else: a marked piece is the
/// symbol, and no piece between two marks has the symbol in it.
pub proof fn marks_are_the_symbol(snippet: Seq<char>, symbol: Seq<char>)
    requires
        symbol.len() > 0,
        snippet.len() > 0,
    ensures
        ({
            let pieces = marked_snippet(snippet, symbol);
            forall|i: int|
                0 <= i < pieces.len() ==> if (#[trigger] pieces[i]).1 {
                    pieces[i].0 == symbol
                } else {
                    !has_symbol(pieces[i].0, symbol)
                }
        }),
{
    lemma_marks_are_the_symbol(snippet, symbol, 0);
}

/// Of a place that is given by its bytes, these bytes are marked and nothing else; a place
/// that is empty or cuts a character marks nothing.
pub proof fn marked_ranges_are_the_bytes(snippet: Seq<char>, start: int, end: int)
    requires
        0 <= start,
    ensures
        ({
            let pieces = marked_range(snippet, start, end);
            let good = start < end && is_boundary(snippet, start) && is_boundary(snippet, end);
            &&& !good ==> pieces == seq![(snippet, false)]
            &&& good ==> exists|i: int|
                0 <= i < pieces.len() && #[trigger] pieces[i] == (slice(snippet, start, end), true)
            &&& good ==> forall|i: int|
                0 <= i < pieces.len() && (#[trigger] pieces[i]).1 ==> pieces[i].0 == slice(
                    snippet,
                    start,
                    end,
                )
        }),
{
    let pieces = marked_range(snippet, start, end);
    if start < end && is_boundary(snippet, start) && is_boundary(snippet, end) {
        let i: int = if start > 0 {
            1
        } else {
            0
        };
        assert(pieces[i] == (slice(snippet, start, end), true));
    }
}

/// A text that is cut says so with an ellipsis: behind what is kept of its start, or before
/// what is kept of its end.
pub proof fn cut_texts_show_an_ellipsis(text: Seq<char>, max: int)
    requires
        text_columns(text) > max > 0,
    ensures
        ({
            let start = cut_end(text, max);
            let end = cut_start(text, max);
            &&& start.last() == '…' && start.drop_last() == text.take(start.len() - 1)
            &&& end[0] == '…' && end.skip(1) == text.skip(text.len() - (end.len() - 1))
        }),
{
    cut_texts_leave_room(text, max);
    assert(text.subrange(0, 0) =~= Seq::<char>::empty());
    lemma_fits_to(text, 0, 0, max - 1);
    let start = cut_end(text, max);
    let end = cut_start(text, max);
    assert(start.drop_last() =~= text.take(start.len() - 1));
    assert(end.skip(1) =~= text.skip(text.len() - (end.len() - 1)));
}

/// Pieces are shown in their order, those that are marked in the looks of marks and the others
/// in the looks of text.
pub proof fn marked_pieces_look_marked(
    spans: Seq<StyledText>,
    pieces: Seq<(Seq<char>, bool)>,
    normal: TextStyle,
    highlighted: TextStyle,
    i: int,
)
    requires
        are_pieces(spans, pieces, normal, highlighted),
        0 <= i < pieces.len(),
    ensures
        spans.len() == pieces.len(),
        spans[i].text@ == pieces[i].0,
        pieces[i].1 ==> spans[i].style == highlighted,
        !pieces[i].1 ==> spans[i].style == normal,
{
}

} // verus!
