//! Parts of a text, by their bytes.

use crate::text::chars_of;
use crate::ui::width::{byte_at, byte_places, bytes_in, lemma_byte_at_ends, lemma_byte_at_grows};
use vstd::prelude::*;

verus! {

/// Whether a character of the text begins at byte `b`, or the text ends there.
pub open spec fn is_boundary(text: Seq<char>, b: int) -> bool {
    exists|k: int| 0 <= k <= text.len() && #[trigger] byte_at(text, k) == b
}

/// Which character of the text begins at byte `b`.
pub open spec fn char_at(text: Seq<char>, b: int) -> int {
    choose|k: int| 0 <= k <= text.len() && #[trigger] byte_at(text, k) == b
}

/// The text between two bytes.
pub open spec fn slice(text: Seq<char>, a: int, b: int) -> Seq<char> {
    text.subrange(char_at(text, a), char_at(text, b))
}

/// Whether the text can be cut at two bytes, the second no earlier than the first.
pub open spec fn can_cut(text: Seq<char>, a: int, b: int) -> bool {
    &&& a <= b
    &&& is_boundary(text, a)
    &&& is_boundary(text, b)
}

pub proof fn lemma_char_at(text: Seq<char>, k: int)
    requires
        0 <= k <= text.len(),
    ensures
        is_boundary(text, byte_at(text, k)),
        char_at(text, byte_at(text, k)) == k,
{
    let b = byte_at(text, k);
    assert(is_boundary(text, b));
    let j = char_at(text, b);
    if j < k {
        lemma_byte_at_grows(text, j, k);
    } else if k < j {
        lemma_byte_at_grows(text, k, j);
    }
}

/// Places of characters are ordered as their bytes are.
pub proof fn lemma_cut_order(text: Seq<char>, a: int, b: int)
    requires
        can_cut(text, a, b),
    ensures
        0 <= char_at(text, a) <= char_at(text, b) <= text.len(),
        byte_at(text, char_at(text, a)) == a,
        byte_at(text, char_at(text, b)) == b,
        0 <= a,
        b <= bytes_in(text),
{
    let j = char_at(text, a);
    let k = char_at(text, b);
    lemma_byte_at_ends(text);
    lemma_byte_at_grows(text, 0, j);
    lemma_byte_at_grows(text, k, text.len() as int);
    if k < j {
        lemma_byte_at_grows(text, k, j);
    }
}

/// The place of the character that begins at byte `b`, out of the places of all
/// characters.
fn find_char(text: Ghost<Seq<char>>, places: &Vec<usize>, b: usize) -> (r: usize)
    requires
        places@.len() == text@.len() + 1,
        forall|k: int| 0 <= k <= text@.len() ==> #[trigger] places@[k] == byte_at(text@, k),
        is_boundary(text@, b as int),
    ensures
        r == char_at(text@, b as int),
        r <= text@.len(),
{
    let ghost place = char_at(text@, b as int);
    let len: usize = places.len();
    let mut i: usize = 0;
    while places[i] != b
        invariant
            i <= place < len,
            len == places@.len(),
            places@.len() == text@.len() + 1,
            forall|k: int| 0 <= k <= text@.len() ==> #[trigger] places@[k] == byte_at(text@, k),
            byte_at(text@, place) == b,
        decreases place - i,
    {
        assert(places@[i as int] == byte_at(text@, i as int));
        i += 1;
    }
    proof {
        assert(places@[i as int] == byte_at(text@, i as int));
        lemma_char_at(text@, i as int);
    }
    i
}

/// The text between two bytes.
pub fn slice_bytes(text: &str, start: usize, end: usize) -> (r: String)
    requires
        can_cut(text@, start as int, end as int),
    ensures
        r@ == slice(text@, start as int, end as int),
{
    let chars = chars_of(text);
    let places = byte_places(text);
    let from: usize = find_char(Ghost(text@), &places, start);
    let to: usize = find_char(Ghost(text@), &places, end);
    proof {
        lemma_cut_order(text@, start as int, end as int);
    }
    let mut out = String::new();
    let mut i: usize = from;
    assert(out@ =~= text@.subrange(from as int, from as int));
    while i < to
        invariant
            from <= i <= to <= text@.len(),
            chars@ == text@,
            out@ == text@.subrange(from as int, i as int),
        decreases to - i,
    {
        out.push(chars[i]);
        assert(out@ =~= text@.subrange(from as int, i + 1));
        i += 1;
    }
    out
}

pub proof fn lemma_bytes_in_concat(s: Seq<char>, t: Seq<char>)
    ensures
        bytes_in(s + t) == bytes_in(s) + bytes_in(t),
    decreases t.len(),
{
    if t.len() == 0 {
        assert(s + t =~= s);
    } else {
        assert((s + t).drop_last() =~= s + t.drop_last());
        lemma_bytes_in_concat(s, t.drop_last());
    }
}

/// Bytes of the second of two texts that are joined stand behind those of the first.
pub proof fn lemma_byte_at_concat(s: Seq<char>, t: Seq<char>, k: int)
    requires
        0 <= k <= s.len() + t.len(),
    ensures
        k <= s.len() ==> byte_at(s + t, k) == byte_at(s, k),
        k >= s.len() ==> byte_at(s + t, k) == bytes_in(s) + byte_at(t, k - s.len()),
{
    if k <= s.len() {
        assert((s + t).take(k) =~= s.take(k));
    }
    if k >= s.len() {
        assert((s + t).take(k) =~= s + t.take(k - s.len()));
        lemma_bytes_in_concat(s, t.take(k - s.len()));
    }
}

/// A place in the middle of three joined texts is a place of the middle one.
pub proof fn lemma_boundary_inside(s: Seq<char>, t: Seq<char>, u: Seq<char>, b: int)
    requires
        is_boundary(s + t + u, b),
        bytes_in(s) <= b <= bytes_in(s) + bytes_in(t),
    ensures
        is_boundary(t, b - bytes_in(s)),
        s.len() + char_at(t, b - bytes_in(s)) == char_at(s + t + u, b),
{
    let all = s + t + u;
    let k = char_at(all, b);
    lemma_bytes_in_concat(s, t);
    lemma_byte_at_concat(s + t, u, k);
    lemma_byte_at_ends(s);
    lemma_byte_at_ends(t);
    lemma_byte_at_ends(u);
    if k > s.len() + t.len() {
        lemma_byte_at_grows(u, 0, k - (s + t).len());
    }
    lemma_byte_at_concat(s, t, k);
    if k < s.len() {
        lemma_byte_at_grows(s, k, s.len() as int);
    }
    lemma_char_at(t, k - s.len());
}

/// What lies between two bytes is what lies before a byte in between, and then what
/// lies after it.
pub proof fn lemma_slice_joins(text: Seq<char>, a: int, b: int, c: int)
    requires
        can_cut(text, a, b),
        can_cut(text, b, c),
    ensures
        slice(text, a, c) == slice(text, a, b) + slice(text, b, c),
{
    lemma_cut_order(text, a, b);
    lemma_cut_order(text, b, c);
    assert(slice(text, a, c) =~= slice(text, a, b) + slice(text, b, c));
}

/// The ends of a text are places where it can be cut.
pub proof fn lemma_whole(text: Seq<char>)
    ensures
        can_cut(text, 0, bytes_in(text)),
        slice(text, 0, bytes_in(text)) == text,
        0 <= bytes_in(text),
{
    lemma_byte_at_ends(text);
    lemma_byte_at_grows(text, 0, text.len() as int);
    lemma_char_at(text, 0);
    lemma_char_at(text, text.len() as int);
    assert(slice(text, 0, bytes_in(text)) =~= text);
}

} // verus!
