//! Text as a sequence of characters.

use vstd::prelude::*;

verus! {

/// `String::push` appends one character.
pub assume_specification[ String::push ](s: &mut String, c: char)
    ensures
        final(s)@ == old(s)@.push(c),
;

/// `String::push_str` appends a text.
pub assume_specification[ String::push_str ](s: &mut String, text: &str)
    ensures
        final(s)@ == old(s)@ + text@,
;

/// `String::is_empty` holds of the text without characters.
pub assume_specification[ String::is_empty ](s: &String) -> (r: bool)
    ensures
        r == (s@.len() == 0),
;

/// Whether a character has Unicode's `White_Space` property: tab to carriage return, the
/// space, the next-line control, and the spaces and separators outside of ASCII.
pub open spec fn white_space(c: char) -> bool {
    let n = c as u32;
    ||| 0x9 <= n <= 0xd
    ||| n == 0x20
    ||| n == 0x85
    ||| n == 0xa0
    ||| n == 0x1680
    ||| 0x2000 <= n <= 0x200a
    ||| 0x2028 <= n <= 0x2029
    ||| n == 0x202f
    ||| n == 0x205f
    ||| n == 0x3000
}

/// `char::is_whitespace` tells whether a character has the `White_Space` property.
pub assume_specification[ char::is_whitespace ](c: char) -> (r: bool)
    ensures
        r == white_space(c),
;

/// The texts of a list of strings.
pub open spec fn views(list: Seq<String>) -> Seq<Seq<char>> {
    list.map_values(|s: String| s@)
}

/// The texts of a list that has grown by one.
pub proof fn lemma_views_push(list: Seq<String>, s: String)
    ensures
        views(list.push(s)) == views(list).push(s@),
{
    assert(views(list.push(s)) =~= views(list).push(s@));
}

/// The characters of a text.
pub fn chars_of(text: &str) -> (r: Vec<char>)
    ensures
        r@ == text@,
{
    let mut out: Vec<char> = Vec::new();
    for c in it: text.chars()
        invariant
            it.seq() == text@,
            out@ == text@.take(it.index()),
    {
        out.push(c);
        assert(text@.take(it.index() + 1) == text@.take(it.index()).push(c));
    }
    assert(text@.take(text@.len() as int) == text@);
    out
}

/// The text of the characters from `start` to `end`.
pub fn string_of(chars: &Vec<char>, start: usize, end: usize) -> (r: String)
    requires
        start <= end <= chars@.len(),
    ensures
        r@ == chars@.subrange(start as int, end as int),
{
    let mut out = String::new();
    let mut i: usize = start;
    while i < end
        invariant
            start <= i <= end <= chars@.len(),
            out@ == chars@.subrange(start as int, i as int),
        decreases end - i,
    {
        out.push(chars[i]);
        i += 1;
        assert(chars@.subrange(start as int, i as int) == chars@.subrange(
            start as int,
            i - 1,
        ).push(chars@[i - 1]));
    }
    out
}

/// Whether every character is white space.
pub open spec fn is_blank(text: Seq<char>) -> bool {
    forall|i: int| 0 <= i < text.len() ==> white_space(#[trigger] text[i])
}

/// `inner` is `text` without the white space at its two ends.
pub open spec fn is_trim_of(inner: Seq<char>, text: Seq<char>) -> bool {
    exists|start: int, end: int| #[trigger] trims_at(inner, text, start, end)
}

/// `inner` is the part of `text` from `start` to `end`, the rest is white space, and
/// `inner` neither begins nor ends with any.
pub open spec fn trims_at(inner: Seq<char>, text: Seq<char>, start: int, end: int) -> bool {
    &&& 0 <= start <= end <= text.len()
    &&& inner == text.subrange(start, end)
    &&& is_blank(text.subrange(0, start))
    &&& is_blank(text.subrange(end, text.len() as int))
    &&& inner.len() > 0 ==> !white_space(inner[0]) && !white_space(inner.last())
}

/// The part of `chars` between `start` and `end` without the white space at its ends,
/// as the bounds of what is left.
pub fn trim_bounds(chars: &Vec<char>, start: usize, end: usize) -> (r: (usize, usize))
    requires
        start <= end <= chars@.len(),
    ensures
        start <= r.0 <= r.1 <= end,
        trims_at(
            chars@.subrange(r.0 as int, r.1 as int),
            chars@.subrange(start as int, end as int),
            r.0 - start,
            r.1 - start,
        ),
        r.0 == r.1 <==> is_blank(chars@.subrange(start as int, end as int)),
{
    let ghost text = chars@.subrange(start as int, end as int);
    let mut a: usize = start;
    while a < end && chars[a].is_whitespace()
        invariant
            start <= a <= end <= chars@.len(),
            forall|i: int| start <= i < a ==> white_space(#[trigger] chars@[i]),
        decreases end - a,
    {
        a += 1;
    }
    let mut b: usize = end;
    while b > a && chars[b - 1].is_whitespace()
        invariant
            start <= a <= b <= end <= chars@.len(),
            forall|i: int| b <= i < end ==> white_space(#[trigger] chars@[i]),
        decreases b - a,
    {
        b -= 1;
    }
    proof {
        let inner = chars@.subrange(a as int, b as int);
        assert(inner =~= text.subrange(a - start, b - start));
        assert forall|i: int| 0 <= i < a - start implies white_space(
            #[trigger] text.subrange(0, a - start)[i],
        ) by {
            assert(text.subrange(0, a - start)[i] == chars@[start + i]);
        }
        assert forall|i: int| 0 <= i < end - b implies white_space(
            #[trigger] text.subrange(b - start, text.len() as int)[i],
        ) by {
            assert(text.subrange(b - start, text.len() as int)[i] == chars@[b + i]);
        }
        if a == b {
            assert forall|i: int| 0 <= i < text.len() implies white_space(#[trigger] text[i]) by {
                assert(text[i] == chars@[start + i]);
            }
        } else {
            assert(text[a - start] == chars@[a as int]);
            assert(!white_space(text[a - start]));
        }
    }
    (a, b)
}

/// Two ways to trim a text that is not blank give the same result.
pub proof fn trimming_is_unique(a: Seq<char>, b: Seq<char>, text: Seq<char>)
    requires
        is_trim_of(a, text),
        is_trim_of(b, text),
    ensures
        a == b,
{
    let (s, e) = choose|s: int, e: int| #[trigger] trims_at(a, text, s, e);
    let (t, f) = choose|t: int, f: int| #[trigger] trims_at(b, text, t, f);
    assert(trims_at(a, text, s, e));
    assert(trims_at(b, text, t, f));
    if s < e {
        assert(text[s] == a[0] && text[e - 1] == a.last());
        if s < t {
            assert(text.subrange(0, t)[s] == text[s]);
        }
        if e > f {
            assert(text.subrange(f, text.len() as int)[e - 1 - f] == text[e - 1]);
        }
    }
    if t < f {
        assert(text[t] == b[0] && text[f - 1] == b.last());
        if t < s {
            assert(text.subrange(0, s)[t] == text[t]);
        }
        if f > e {
            assert(text.subrange(e, text.len() as int)[f - 1 - e] == text[f - 1]);
        }
    }
}

/// A text without the white space at its two ends.
pub open spec fn trimmed(text: Seq<char>) -> Seq<char> {
    choose|inner: Seq<char>| is_trim_of(inner, text)
}

/// A text that trims another is the one that does.
pub proof fn lemma_trimmed(inner: Seq<char>, text: Seq<char>)
    requires
        is_trim_of(inner, text),
    ensures
        trimmed(text) == inner,
{
    trimming_is_unique(inner, trimmed(text), text);
}

/// The place of the first `c` at or after `start`, or the length of the text.
pub open spec fn next_place(text: Seq<char>, c: char, start: int) -> int
    decreases text.len() - start,
{
    if start < 0 || start >= text.len() || text[start] == c {
        start
    } else {
        next_place(text, c, start + 1)
    }
}

pub proof fn lemma_next_place(text: Seq<char>, c: char, start: int)
    requires
        0 <= start <= text.len(),
    ensures
        start <= next_place(text, c, start) <= text.len(),
        next_place(text, c, start) < text.len() ==> text[next_place(text, c, start)] == c,
        forall|i: int| start <= i < next_place(text, c, start) ==> text[i] != c,
    decreases text.len() - start,
{
    if start < text.len() && text[start] != c {
        lemma_next_place(text, c, start + 1);
    }
}

/// The place of the first `c` at or after `start`, or the length of the text.
pub fn find_char(chars: &Vec<char>, c: char, start: usize) -> (r: usize)
    requires
        start <= chars@.len(),
    ensures
        r == next_place(chars@, c, start as int),
        start <= r <= chars@.len(),
        r < chars@.len() ==> chars@[r as int] == c,
        forall|i: int| start <= i < r ==> chars@[i] != c,
{
    let mut i: usize = start;
    proof {
        lemma_next_place(chars@, c, start as int);
    }
    while i < chars.len() && chars[i] != c
        invariant
            start <= i <= chars@.len(),
            next_place(chars@, c, start as int) == next_place(chars@, c, i as int),
        decreases chars@.len() - i,
    {
        i += 1;
    }
    i
}

/// The first line at or after `start` that is not blank: its bounds, without the
/// newline.
pub open spec fn first_full_line(text: Seq<char>, start: int) -> Option<(int, int)>
    decreases text.len() - start,
{
    if start < 0 || start > text.len() {
        None
    } else {
        let end = next_place(text, '\n', start);
        if end < start || end > text.len() {
            None
        } else if !is_blank(text.subrange(start, end)) {
            Some((start, end))
        } else if end == text.len() {
            None
        } else {
            first_full_line(text, end + 1)
        }
    }
}

/// The first line that is not blank, without the white space at its ends.
pub fn first_nonempty_trimmed_line(text: &str) -> (r: Option<String>)
    ensures
        match (r, first_full_line(text@, 0)) {
            (Some(line), Some(bounds)) => is_trim_of(
                line@,
                text@.subrange(bounds.0, bounds.1),
            ) && line@.len() > 0,
            (None, None) => true,
            _ => false,
        },
{
    let chars = chars_of(text);
    let mut start: usize = 0;
    loop
        invariant
            start <= chars@.len(),
            chars@ == text@,
            first_full_line(text@, 0) == first_full_line(text@, start as int),
        decreases chars@.len() - start,
    {
        let end: usize = find_char(&chars, '\n', start);
        let (a, b) = trim_bounds(&chars, start, end);
        if a < b {
            let line = string_of(&chars, a, b);
            proof {
                assert(trims_at(
                    line@,
                    text@.subrange(start as int, end as int),
                    a - start,
                    b - start,
                ));
            }
            return Some(line);
        }
        if end == chars.len() {
            return None;
        }
        start = end + 1;
    }
}

/// The longest line of a search result that is kept.
pub const MAX_LINE_CHARS: usize = 250;

/// Cuts a text off after as many characters as a search result keeps.
pub fn truncate_line(text: &str) -> (r: String)
    ensures
        r@ == (if text@.len() <= MAX_LINE_CHARS {
            text@
        } else {
            text@.take(MAX_LINE_CHARS as int)
        }),
{
    let chars = chars_of(text);
    let end: usize = if chars.len() < MAX_LINE_CHARS {
        chars.len()
    } else {
        MAX_LINE_CHARS
    };
    assert(chars@.subrange(0, end as int) =~= chars@.take(end as int));
    assert(chars@.take(chars@.len() as int) =~= chars@);
    string_of(&chars, 0, end)
}

/// Cuts a range off at `max_end`. A range that begins there or later is not in sight
/// at all.
pub fn clip_range(range: std::ops::Range<usize>, max_end: usize) -> (r: Option<
    std::ops::Range<usize>,
>)
    ensures
        match r {
            Some(clipped) => range.start < max_end && clipped.start == range.start && clipped.end
                == (if range.end < max_end {
                range.end
            } else {
                max_end
            }),
            None => range.start >= max_end,
        },
{
    if range.start >= max_end {
        None
    } else {
        Some(range.start..range.end.min(max_end))
    }
}

/// Whether a text begins with another.
pub open spec fn begins_with(text: Seq<char>, start: Seq<char>) -> bool {
    start.len() <= text.len() && text.take(start.len() as int) == start
}

/// A text without a beginning that it may have.
pub open spec fn without_start(text: Seq<char>, start: Seq<char>) -> Seq<char> {
    if begins_with(text, start) {
        text.skip(start.len() as int)
    } else {
        text
    }
}

/// Whether the characters from `at` on begin with `start`.
pub fn begins_at(chars: &Vec<char>, at: usize, start: &Vec<char>) -> (r: bool)
    requires
        at <= chars@.len(),
    ensures
        r == begins_with(chars@.skip(at as int), start@),
{
    let ghost rest = chars@.skip(at as int);
    let len: usize = chars.len();
    if len - at < start.len() {
        return false;
    }
    let mut i: usize = 0;
    while i < start.len()
        invariant
            i <= start@.len() <= chars@.len() - at,
            at <= chars@.len() == len,
            rest == chars@.skip(at as int),
            rest.take(i as int) == start@.take(i as int),
        decreases start@.len() - i,
    {
        if chars[at + i] != start[i] {
            proof {
                assert(rest[i as int] == chars@[at + i]);
                assert(rest.take(start@.len() as int)[i as int] != start@[i as int]);
            }
            return false;
        }
        proof {
            assert(rest[i as int] == chars@[at + i]);
            assert(rest.take(i + 1) =~= rest.take(i as int).push(rest[i as int]));
            assert(start@.take(i + 1) =~= start@.take(i as int).push(start@[i as int]));
        }
        i += 1;
    }
    assert(start@.take(start@.len() as int) =~= start@);
    true
}

/// Whether a text holds another somewhere.
pub open spec fn holds_text(text: Seq<char>, part: Seq<char>) -> bool {
    exists|at: int| 0 <= at <= text.len() && #[trigger] begins_with(text.skip(at), part)
}

/// Whether a text holds another somewhere.
pub fn contains_text(text: &str, part: &str) -> (r: bool)
    ensures
        r == holds_text(text@, part@),
{
    let chars = chars_of(text);
    let wanted = chars_of(part);
    let mut at: usize = 0;
    loop
        invariant
            at <= chars@.len(),
            chars@ == text@,
            wanted@ == part@,
            forall|k: int| 0 <= k < at ==> !(#[trigger] begins_with(text@.skip(k), part@)),
        decreases chars@.len() - at,
    {
        if begins_at(&chars, at, &wanted) {
            return true;
        }
        if at == chars.len() {
            return false;
        }
        at += 1;
    }
}

/// Takes a beginning off a text that has it.
pub fn strip_start(text: &str, start: &str) -> (r: Option<String>)
    ensures
        match r {
            Some(rest) => begins_with(text@, start@) && rest@ == text@.skip(start@.len() as int),
            None => !begins_with(text@, start@),
        },
{
    let chars = chars_of(text);
    let front = chars_of(start);
    assert(chars@.skip(0) =~= chars@);
    if begins_at(&chars, 0, &front) {
        let rest = string_of(&chars, front.len(), chars.len());
        assert(rest@ =~= text@.skip(start@.len() as int));
        Some(rest)
    } else {
        None
    }
}

/// Whether two texts are the same.
pub fn same_text(a: &str, b: &str) -> (r: bool)
    ensures
        r == (a@ == b@),
{
    a.to_string() == b.to_string()
}

/// One text after another.
pub fn concat(first: &str, second: &str) -> (r: String)
    ensures
        r@ == first@ + second@,
{
    let mut out = first.to_string();
    out.push_str(second);
    out
}

/// A digit in base sixteen.
pub open spec fn hex_letter(n: int) -> char {
    if n < 10 {
        (0x30 + n) as char
    } else {
        (0x41 + n - 10) as char
    }
}

/// A digit in base sixteen.
pub fn hex_char(n: u8) -> (r: char)
    requires
        n < 16,
    ensures
        r == hex_letter(n as int),
{
    if n < 10 {
        (0x30 + n) as char
    } else {
        (0x41 + (n - 10)) as char
    }
}

/// A number in base ten.
pub open spec fn decimal(n: nat) -> Seq<char>
    decreases n,
{
    if n < 10 {
        seq![hex_letter(n as int)]
    } else {
        decimal(n / 10).push(hex_letter((n % 10) as int))
    }
}

/// A number in base ten.
pub fn decimal_text(n: usize) -> (r: String)
    ensures
        r@ == decimal(n as nat),
    decreases n,
{
    if n < 10 {
        let mut out = String::new();
        out.push(hex_char(n as u8));
        assert(out@ =~= decimal(n as nat));
        out
    } else {
        let mut out = decimal_text(n / 10);
        out.push(hex_char((n % 10) as u8));
        out
    }
}

/// How many digits a number has.
pub fn digit_count(n: usize) -> (r: usize)
    ensures
        r == decimal(n as nat).len(),
        1 <= r <= n + 1,
    decreases n,
{
    if n < 10 {
        1
    } else {
        digit_count(n / 10) + 1
    }
}

/// A larger number has no fewer digits.
pub proof fn lemma_digits_grow(a: nat, b: nat)
    requires
        a <= b,
    ensures
        1 <= decimal(a).len() <= decimal(b).len(),
    decreases b,
{
    if b >= 10 && a >= 10 {
        lemma_digits_grow(a / 10, b / 10);
    } else if b >= 10 {
        lemma_digits_grow(0, b / 10);
    }
}

/// `n` spaces.
pub open spec fn blanks(n: int) -> Seq<char> {
    Seq::new(n as nat, |i: int| ' ')
}

/// `n` spaces.
pub fn spaces(n: usize) -> (r: String)
    ensures
        r@ == blanks(n as int),
{
    let mut out = String::new();
    let mut i: usize = 0;
    assert(out@ =~= blanks(0));
    while i < n
        invariant
            i <= n,
            out@ == blanks(i as int),
        decreases n - i,
    {
        out.push(' ');
        assert(out@ =~= blanks(i + 1));
        i += 1;
    }
    out
}

/// A number in base ten, moved to the right of `width` columns.
pub open spec fn right_aligned(n: nat, width: int) -> Seq<char> {
    if decimal(n).len() < width {
        blanks(width - decimal(n).len()) + decimal(n)
    } else {
        decimal(n)
    }
}

/// A number in base ten, moved to the right of `width` columns.
pub fn align_right(n: usize, width: usize) -> (r: String)
    ensures
        r@ == right_aligned(n as nat, width as int),
{
    let text = decimal_text(n);
    let len: usize = digit_count(n);
    if len < width {
        concat(spaces(width - len).as_str(), text.as_str())
    } else {
        text
    }
}

/// A number at the right end of a column has blanks before it and nothing behind it, and a
/// number that is too wide for the column is shown whole.
pub proof fn numbers_stand_at_the_right(n: nat, width: int)
    ensures
        ({
            let text = right_aligned(n, width);
            let digits = decimal(n);
            &&& digits.len() <= width ==> text.len() == width
            &&& digits.len() > width ==> text == digits
            &&& text.len() >= digits.len()
            &&& text.skip(text.len() - digits.len()) == digits
            &&& forall|i: int| 0 <= i < text.len() - digits.len() ==> #[trigger] text[i] == ' '
        }),
{
    let text = right_aligned(n, width);
    assert(text.skip(text.len() - decimal(n).len()) =~= decimal(n));
}

/// One digit more behind a number is ten times the number and the digit.
pub proof fn digits_count_by_tens(n: nat, digit: nat)
    requires
        n > 0,
        digit < 10,
    ensures
        decimal(10 * n + digit) == decimal(n).push(hex_letter(digit as int)),
        decimal(digit) == seq![hex_letter(digit as int)],
{
    assert((10 * n + digit) / 10 == n);
    assert((10 * n + digit) % 10 == digit);
}

/// The first line that is not blank is not blank, ends where the line ends, and only blank
/// lines come before it; where there is none, all of the text is blank.
pub proof fn first_full_lines_are_first(text: Seq<char>, start: int)
    requires
        0 <= start <= text.len(),
    ensures
        match first_full_line(text, start) {
            Some((from, to)) => {
                &&& start <= from <= to <= text.len()
                &&& !is_blank(text.subrange(from, to))
                &&& is_blank(text.subrange(start, from))
                &&& to < text.len() ==> text[to] == '\n'
                &&& forall|i: int| from <= i < to ==> #[trigger] text[i] != '\n'
            },
            None => is_blank(text.subrange(start, text.len() as int)),
        },
    decreases text.len() - start,
{
    lemma_next_place(text, '\n', start);
    let end = next_place(text, '\n', start);
    let line = text.subrange(start, end);
    if is_blank(line) && end < text.len() {
        first_full_lines_are_first(text, end + 1);
        assert(white_space('\n')) by {
            assert('\n' as u32 == 0xa);
        }
        let stop = match first_full_line(text, end + 1) {
            Some((from, _)) => from,
            None => text.len() as int,
        };
        assert forall|i: int| 0 <= i < stop - start implies white_space(
            #[trigger] text.subrange(start, stop)[i],
        ) by {
            if start + i < end {
                assert(text.subrange(start, stop)[i] == line[i]);
            } else if start + i > end {
                assert(text.subrange(start, stop)[i] == text.subrange(end + 1, stop)[start + i - end
                    - 1]);
            }
        }
    } else if !is_blank(line) {
        assert(text.subrange(start, start) =~= Seq::<char>::empty());
    }
}

} // verus!
