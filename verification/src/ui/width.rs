//! How much room text takes: columns on screen and bytes in a line.

use crate::text::chars_of;
use vstd::prelude::*;

verus! {

/// The columns that a character takes, or none where it is a control character.
pub uninterp spec fn char_columns(c: char) -> Option<usize>;

/// `unicode_width::UnicodeWidthChar::width`. Control characters have no width, printable
/// ASCII characters take one column, and no character takes more than three.
#[verifier::external_body]
pub(crate) fn char_width(c: char) -> (r: Option<usize>)
    ensures
        r == char_columns(c),
        r is None <==> (c as u32) < 0x20 || 0x7f <= c as u32 <= 0x9f,
        0x20 <= c as u32 <= 0x7e ==> r == Some(1usize),
        r matches Some(w) ==> w <= 3,
{
    unicode_width::UnicodeWidthChar::width(c)
}

/// The columns that a text takes.
pub uninterp spec fn text_columns(text: Seq<char>) -> usize;

/// Whether a text is made of printable ASCII characters.
pub open spec fn is_printable_ascii(text: Seq<char>) -> bool {
    forall|i: int| 0 <= i < text.len() ==> 0x20 <= (#[trigger] text[i]) as u32 <= 0x7e
}

/// `unicode_width::UnicodeWidthStr::width`. A text of printable ASCII characters takes a
/// column for each of them.
#[verifier::external_body]
pub(crate) fn text_width(text: &str) -> (r: usize)
    ensures
        r == text_columns(text@),
        is_printable_ascii(text@) ==> r == text@.len(),
{
    unicode_width::UnicodeWidthStr::width(text)
}

/// The columns that a character takes where control characters take none.
pub open spec fn columns(c: char) -> int {
    match char_columns(c) {
        Some(w) => w as int,
        None => 0,
    }
}

/// The columns that a character takes where control characters take none.
pub fn columns_of(c: char) -> (r: usize)
    ensures
        r == columns(c),
        r <= 3,
{
    match char_width(c) {
        Some(w) => w,
        None => 0,
    }
}

/// The columns that the characters of a text take one by one.
pub open spec fn columns_in(text: Seq<char>) -> int
    decreases text.len(),
{
    if text.len() == 0 {
        0
    } else {
        columns_in(text.drop_last()) + columns(text.last())
    }
}

/// The bytes that a character takes in UTF-8.
pub open spec fn bytes_of(c: char) -> int {
    if (c as u32) < 0x80 {
        1
    } else if (c as u32) < 0x800 {
        2
    } else if (c as u32) < 0x10000 {
        3
    } else {
        4
    }
}

/// The bytes that a character takes in UTF-8.
pub fn utf8_len(c: char) -> (r: usize)
    ensures
        r == bytes_of(c),
        1 <= r <= 4,
{
    let code: u32 = c as u32;
    if code < 0x80 {
        1
    } else if code < 0x800 {
        2
    } else if code < 0x10000 {
        3
    } else {
        4
    }
}

/// The bytes that a text takes in UTF-8.
pub open spec fn bytes_in(text: Seq<char>) -> int
    decreases text.len(),
{
    if text.len() == 0 {
        0
    } else {
        bytes_in(text.drop_last()) + bytes_of(text.last())
    }
}

/// The place, in bytes, of the `k`-th character of a text.
pub open spec fn byte_at(text: Seq<char>, k: int) -> int {
    bytes_in(text.take(k))
}

pub proof fn lemma_byte_at_next(text: Seq<char>, k: int)
    requires
        0 <= k < text.len(),
    ensures
        byte_at(text, k + 1) == byte_at(text, k) + bytes_of(text[k]),
{
    assert(text.take(k + 1).drop_last() =~= text.take(k));
}

/// Later characters stand at later places.
pub proof fn lemma_byte_at_grows(text: Seq<char>, j: int, k: int)
    requires
        0 <= j <= k <= text.len(),
    ensures
        byte_at(text, k) - byte_at(text, j) >= k - j,
    decreases k - j,
{
    if j < k {
        lemma_byte_at_grows(text, j, k - 1);
        lemma_byte_at_next(text, k - 1);
    }
}

pub proof fn lemma_byte_at_ends(text: Seq<char>)
    ensures
        byte_at(text, 0) == 0,
        byte_at(text, text.len() as int) == bytes_in(text),
{
    assert(text.take(0) =~= Seq::<char>::empty());
    assert(text.take(text.len() as int) =~= text);
}

/// The bytes of the UTF-8 encoding are what is counted here.
pub proof fn lemma_bytes_are_utf8(text: Seq<char>)
    ensures
        vstd::utf8::encode_utf8(text).len() == bytes_in(text),
    decreases text.len(),
{
    if text.len() > 0 {
        lemma_bytes_from_front(text);
        lemma_bytes_are_utf8(text.drop_first());
        lemma_encoded_len(text[0]);
    }
}

proof fn lemma_encoded_len(c: char)
    ensures
        vstd::utf8::encode_scalar(c as u32).len() == bytes_of(c),
{
}

proof fn lemma_bytes_from_front(text: Seq<char>)
    requires
        text.len() > 0,
    ensures
        bytes_in(text) == bytes_of(text[0]) + bytes_in(text.drop_first()),
    decreases text.len(),
{
    if text.len() == 1 {
        assert(text.drop_last() =~= Seq::<char>::empty());
        assert(text.drop_first() =~= Seq::<char>::empty());
    } else {
        lemma_bytes_from_front(text.drop_last());
        assert(text.drop_last().drop_first() =~= text.drop_first().drop_last());
    }
}

/// The places of all characters of a text, and its end.
pub fn byte_places(text: &str) -> (r: Vec<usize>)
    ensures
        r@.len() == text@.len() + 1,
        forall|k: int| 0 <= k <= text@.len() ==> #[trigger] r@[k] == byte_at(text@, k),
{
    let chars = chars_of(text);
    let total: usize = text.as_bytes().len();
    let mut out: Vec<usize> = Vec::new();
    out.push(0);
    let mut i: usize = 0;
    proof {
        lemma_byte_at_ends(text@);
        lemma_bytes_are_utf8(text@);
    }
    while i < chars.len()
        invariant
            i <= chars@.len(),
            chars@ == text@,
            out@.len() == i + 1,
            bytes_in(text@) == total,
            forall|k: int| 0 <= k <= i ==> #[trigger] out@[k] == byte_at(text@, k),
        decreases chars@.len() - i,
    {
        proof {
            lemma_byte_at_next(text@, i as int);
            lemma_byte_at_grows(text@, i + 1, text@.len() as int);
            lemma_byte_at_ends(text@);
        }
        let next: usize = out[i] + utf8_len(chars[i]);
        out.push(next);
        i += 1;
    }
    out
}

} // verus!
