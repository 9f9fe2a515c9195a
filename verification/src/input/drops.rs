//! File paths that a terminal pastes when files are dropped on it.

use crate::text::{
    begins_at, begins_with, chars_of, find_char, is_trim_of, lemma_next_place, lemma_trimmed,
    lemma_views_push, next_place, string_of, trim_bounds, trimmed, trims_at, views, white_space,
    without_start,
};
use vstd::prelude::*;
use vstd::utf8::{
    char_is_scalar, char_u32_cast, decode_utf8, encode_scalar, encode_utf8, encode_utf8_decode_utf8, encode_utf8_valid_utf8,
    has_width_1_encoding, last_continuation_byte, leading_byte_width_1, leading_byte_width_2,
    leading_byte_width_3, leading_byte_width_4, second_last_continuation_byte,
    third_last_continuation_byte, valid_utf8,
};

verus! {

/// How far a line has been split: the finished words, the word that is being read, and
/// whether it stands in quotes or behind a backslash.
pub struct Splitting {
    pub words: Seq<Seq<char>>,
    pub word: Seq<char>,
    pub in_single: bool,
    pub in_double: bool,
    pub escaped: bool,
}

/// Nothing has been read.
pub open spec fn unsplit() -> Splitting {
    Splitting {
        words: Seq::empty(),
        word: Seq::empty(),
        in_single: false,
        in_double: false,
        escaped: false,
    }
}

impl Splitting {
    /// The words so far, the one that is being read among them if there is any of it.
    pub open spec fn all_words(self) -> Seq<Seq<char>> {
        if self.word.len() == 0 {
            self.words
        } else {
            self.words.push(self.word)
        }
    }

    /// One character further. A backslash takes the next character as it is, except in
    /// single quotes; quotes keep white space in the word; and white space outside of
    /// them ends it.
    pub open spec fn next(self, c: char) -> Splitting {
        if self.escaped {
            Splitting { word: self.word.push(c), escaped: false, ..self }
        } else if c == '\\' && !self.in_single {
            Splitting { escaped: true, ..self }
        } else if c == '\'' && !self.in_double {
            Splitting { in_single: !self.in_single, ..self }
        } else if c == '"' && !self.in_single {
            Splitting { in_double: !self.in_double, ..self }
        } else if white_space(c) && !self.in_single && !self.in_double {
            Splitting { words: self.all_words(), word: Seq::empty(), ..self }
        } else {
            Splitting { word: self.word.push(c), ..self }
        }
    }

    /// A text further.
    pub open spec fn after(self, text: Seq<char>) -> Splitting
        decreases text.len(),
    {
        if text.len() == 0 {
            self
        } else {
            self.after(text.drop_last()).next(text.last())
        }
    }

    /// The words at the end of the line. A backslash with nothing behind it stays.
    pub open spec fn finished(self) -> Seq<Seq<char>> {
        if self.escaped {
            self.words.push(self.word.push('\\'))
        } else {
            self.all_words()
        }
    }

    /// Whether a new word could begin here.
    pub open spec fn is_open(self) -> bool {
        !self.in_single && !self.in_double && !self.escaped
    }
}

/// The words of a line, as a shell splits it.
pub open spec fn words_of(line: Seq<char>) -> Seq<Seq<char>> {
    unsplit().after(line).finished()
}

/// Splits a line into words as a shell does.
pub fn shell_tokenize(s: &str) -> (r: Vec<String>)
    ensures
        views(r@) == words_of(s@),
{
    let mut tokens: Vec<String> = Vec::new();
    let mut cur = String::new();
    let mut in_single = false;
    let mut in_double = false;
    let mut escaped = false;
    proof {
        assert(views(tokens@) =~= unsplit().words);
        assert(s@.take(0) =~= Seq::<char>::empty());
    }
    let chars = chars_of(s);
    let mut i: usize = 0;
    while i < chars.len()
        invariant
            i <= chars@.len(),
            chars@ == s@,
            ({
                let at = unsplit().after(s@.take(i as int));
                &&& views(tokens@) == at.words
                &&& cur@ == at.word
                &&& in_single == at.in_single
                &&& in_double == at.in_double
                &&& escaped == at.escaped
            }),
        decreases chars@.len() - i,
    {
        let c = chars[i];
        proof {
            let next = s@.take(i + 1);
            assert(next.drop_last() =~= s@.take(i as int));
            assert(next.last() == c);
        }
        i += 1;
        if escaped {
            cur.push(c);
            escaped = false;
        } else if c == '\\' && !in_single {
            escaped = true;
        } else if c == '\'' && !in_double {
            in_single = !in_single;
        } else if c == '"' && !in_single {
            in_double = !in_double;
        } else if c.is_whitespace() && !in_single && !in_double {
            if !cur.is_empty() {
                proof {
                    lemma_views_push(tokens@, cur);
                }
                tokens.push(cur);
                cur = String::new();
            }
            assert(cur@ =~= Seq::<char>::empty());
        } else {
            cur.push(c);
        }
    }
    assert(s@.take(i as int) =~= s@);
    if escaped {
        cur.push('\\');
    }
    if !cur.is_empty() {
        proof {
            lemma_views_push(tokens@, cur);
        }
        tokens.push(cur);
    }
    tokens
}

/// The value of a hexadecimal digit.
pub open spec fn hex_value(b: u8) -> Option<int> {
    if 0x30 <= b <= 0x39 {
        Some(b - 0x30)
    } else if 0x61 <= b <= 0x66 {
        Some(b - 0x61 + 10)
    } else if 0x41 <= b <= 0x46 {
        Some(b - 0x41 + 10)
    } else {
        None
    }
}

/// The value of a hexadecimal digit.
pub fn hex_digit(b: u8) -> (r: Option<u8>)
    ensures
        match r {
            Some(v) => hex_value(b) == Some(v as int) && v < 16,
            None => hex_value(b) is None,
        },
{
    if 0x30 <= b && b <= 0x39 {
        Some(b - 0x30)
    } else if 0x61 <= b && b <= 0x66 {
        Some(b - 0x61 + 10)
    } else if 0x41 <= b && b <= 0x46 {
        Some(b - 0x41 + 10)
    } else {
        None
    }
}

/// The byte that an escape at the start of `bytes` stands for: a percent sign and two
/// hexadecimal digits.
pub open spec fn escape_value(bytes: Seq<u8>) -> Option<int> {
    if bytes.len() > 2 && bytes[0] == 0x25 {
        match (hex_value(bytes[1]), hex_value(bytes[2])) {
            (Some(hi), Some(lo)) => Some(hi * 16 + lo),
            _ => None,
        }
    } else {
        None
    }
}

/// The bytes that URL-encoded bytes stand for. What is no escape stands for itself.
pub open spec fn unescaped(bytes: Seq<u8>) -> Seq<u8>
    decreases bytes.len(),
{
    if bytes.len() == 0 {
        Seq::empty()
    } else {
        match escape_value(bytes) {
            Some(v) => seq![v as u8] + unescaped(bytes.skip(3)),
            None => seq![bytes[0]] + unescaped(bytes.skip(1)),
        }
    }
}

/// The text that `String::from_utf8_lossy` reads bytes as.
pub uninterp spec fn lossy_text(bytes: Seq<u8>) -> Seq<char>;

/// `String::from_utf8_lossy`. Bytes that are valid UTF-8 come out as the text that they
/// encode. In others it puts replacement characters for what is not valid; how many, and
/// where, is left to the name.
#[verifier::external_body]
fn read_lossy(bytes: &Vec<u8>) -> (r: String)
    ensures
        r@ == lossy_text(bytes@),
        valid_utf8(bytes@) ==> r@ == decode_utf8(bytes@),
{
    String::from_utf8_lossy(bytes).into_owned()
}

/// The text that bytes are read as: the one that they encode, where there is one.
pub open spec fn text_of(bytes: Seq<u8>) -> Seq<char> {
    if valid_utf8(bytes) {
        decode_utf8(bytes)
    } else {
        lossy_text(bytes)
    }
}

/// The text that URL-encoded bytes stand for.
pub open spec fn url_decoded(bytes: Seq<u8>) -> Seq<char> {
    text_of(unescaped(bytes))
}

/// The bytes that URL-encoded bytes stand for.
pub fn unescape(bytes: &[u8]) -> (r: Vec<u8>)
    ensures
        r@ == unescaped(bytes@),
{
    let mut out: Vec<u8> = Vec::new();
    let mut i: usize = 0;
    let ghost all = bytes@;
    assert(all.skip(0) =~= all);
    while i < bytes.len()
        invariant
            i <= bytes@.len(),
            bytes@ == all,
            out@ + unescaped(all.skip(i as int)) == unescaped(all),
        decreases bytes@.len() - i,
    {
        let ghost rest = all.skip(i as int);
        let ghost before = out@;
        proof {
            assert(rest.skip(1) =~= all.skip(i + 1));
            if rest.len() > 2 {
                assert(rest.skip(3) =~= all.skip(i + 3));
            }
        }
        if bytes[i] == 0x25 && bytes.len() - i > 2 {
            if let (Some(hi), Some(lo)) = (hex_digit(bytes[i + 1]), hex_digit(bytes[i + 2])) {
                out.push(hi * 16 + lo);
                i += 3;
                proof {
                    let v = (hi * 16 + lo) as u8;
                    assert(escape_value(rest) == Some(v as int));
                    assert(before.push(v) + unescaped(all.skip(i as int)) =~= before + (seq![v]
                        + unescaped(all.skip(i as int))));
                }
                continue ;
            }
        }
        out.push(bytes[i]);
        i += 1;
        proof {
            assert(escape_value(rest) is None);
            assert(before.push(rest[0]) + unescaped(all.skip(i as int)) =~= before + (seq![rest[0]]
                + unescaped(all.skip(i as int))));
        }
    }
    assert(all.skip(i as int) =~= Seq::<u8>::empty());
    assert(out@ + Seq::<u8>::empty() =~= out@);
    out
}

/// Decodes `%xx` escapes to the bytes that they stand for, and reads the bytes as UTF-8.
/// Escapes that are none are left as they are.
pub fn url_decode(s: &str) -> (r: String)
    ensures
        r@ == url_decoded(encode_utf8(s@)),
{
    read_lossy(&unescape(s.as_bytes()))
}

/// The path that a word stands for: what a `file://` address leads to on this host, and
/// the word itself otherwise.
pub open spec fn path_of(word: Seq<char>) -> Option<Seq<char>> {
    if word.len() == 0 {
        None
    } else if begins_with(word, "file://"@) {
        let path = url_decoded(
            encode_utf8(without_start(word.skip("file://"@.len() as int), "localhost"@)),
        );
        if path.len() == 0 {
            None
        } else {
            Some(path)
        }
    } else {
        Some(word)
    }
}

/// Turns a word into the path that it stands for.
pub fn normalize_token(raw: &String) -> (r: Option<String>)
    ensures
        match r {
            Some(path) => path_of(raw@) == Some(path@),
            None => path_of(raw@) is None,
        },
{
    if raw.is_empty() {
        return None;
    }
    let chars = chars_of(raw.as_str());
    let len: usize = chars.len();
    let scheme = chars_of("file://");
    assert(chars@.skip(0) =~= chars@);
    if begins_at(&chars, 0, &scheme) {
        let host = chars_of("localhost");
        let mut at: usize = scheme.len();
        if begins_at(&chars, at, &host) {
            assert(chars@.skip(at as int).skip(host@.len() as int) =~= chars@.skip(
                at + host@.len(),
            ));
            at += host.len();
        }
        let part = string_of(&chars, at, len);
        assert(part@ =~= chars@.skip(at as int));
        let decoded = url_decode(part.as_str());
        if decoded.is_empty() {
            return None;
        }
        return Some(decoded);
    }
    Some(raw.clone())
}

/// The paths that a list of words stands for, without those that stand for none.
pub open spec fn paths_of(words: Seq<Seq<char>>) -> Seq<Seq<char>>
    decreases words.len(),
{
    if words.len() == 0 {
        Seq::empty()
    } else {
        let before = paths_of(words.drop_last());
        match path_of(words.last()) {
            Some(path) => before.push(path),
            None => before,
        }
    }
}

/// The paths that the lines of a text from `start` on stand for.
pub open spec fn candidates_from(text: Seq<char>, start: int) -> Seq<Seq<char>>
    decreases text.len() - start,
{
    let end = next_place(text, '\n', start);
    if start < 0 || start > text.len() || end < start || end > text.len() {
        Seq::empty()
    } else {
        let line = paths_of(words_of(trimmed(text.subrange(start, end))));
        if end == text.len() {
            line
        } else {
            line + candidates_from(text, end + 1)
        }
    }
}

/// The paths that a text may be a drop of, in order.
pub open spec fn candidates(text: Seq<char>) -> Seq<Seq<char>> {
    candidates_from(text, 0)
}

fn line_paths(chars: &Vec<char>, start: usize, end: usize) -> (r: Vec<String>)
    requires
        start <= end <= chars@.len(),
    ensures
        views(r@) == paths_of(words_of(trimmed(chars@.subrange(start as int, end as int)))),
{
    let (a, b) = trim_bounds(chars, start, end);
    let line = string_of(chars, a, b);
    let ghost words = words_of(line@);
    proof {
        let text = chars@.subrange(start as int, end as int);
        assert(trims_at(line@, text, a - start, b - start));
        lemma_trimmed(line@, text);
    }
    let tokens = shell_tokenize(line.as_str());
    let mut out: Vec<String> = Vec::new();
    let mut i: usize = 0;
    assert(views(out@) =~= Seq::<Seq<char>>::empty());
    assert(words.take(0) =~= Seq::<Seq<char>>::empty());
    while i < tokens.len()
        invariant
            i <= tokens@.len(),
            words == views(tokens@),
            views(out@) == paths_of(words.take(i as int)),
        decreases tokens@.len() - i,
    {
        proof {
            assert(words.take(i + 1).drop_last() =~= words.take(i as int));
            assert(words.take(i + 1).last() == tokens@[i as int]@);
        }
        if let Some(path) = normalize_token(&tokens[i]) {
            proof {
                lemma_views_push(out@, path);
            }
            out.push(path);
        }
        i += 1;
    }
    assert(words.take(i as int) =~= words);
    out
}

/// The paths that a pasted text may be a drop of.
pub fn dropped_candidates(s: &str) -> (r: Vec<String>)
    ensures
        views(r@) == candidates(s@),
{
    let chars = chars_of(s);
    let mut out: Vec<String> = Vec::new();
    let mut start: usize = 0;
    proof {
        assert(views(out@) + candidates(s@) =~= candidates(s@));
    }
    loop
        invariant
            start <= chars@.len(),
            chars@ == s@,
            views(out@) + candidates_from(s@, start as int) == candidates(s@),
        decreases chars@.len() - start,
    {
        let end: usize = find_char(&chars, '\n', start);
        let mut line = line_paths(&chars, start, end);
        let ghost found = line@;
        let ghost before = out@;
        out.append(&mut line);
        proof {
            assert(views(before + found) =~= views(before) + views(found));
        }
        if end == chars.len() {
            return out;
        }
        proof {
            let rest = candidates_from(s@, end + 1);
            assert(views(before) + (views(found) + rest) =~= views(before) + views(found) + rest);
        }
        start = end + 1;
    }
}

/// The paths of a list that were found, in order.
pub open spec fn kept(paths: Seq<Seq<char>>, found: Seq<bool>) -> Seq<Seq<char>>
    decreases paths.len(),
{
    if paths.len() == 0 || found.len() != paths.len() {
        Seq::empty()
    } else {
        let before = kept(paths.drop_last(), found.drop_last());
        if found.last() {
            before.push(paths.last())
        } else {
            before
        }
    }
}

/// Where two answers are both yes.
pub open spec fn both(a: Seq<bool>, b: Seq<bool>) -> Seq<bool> {
    Seq::new(a.len(), |i: int| a[i] && b[i])
}

/// Keeps the paths that are absolute and were found.
pub fn keep_found(paths: &Vec<String>, absolute: &Vec<bool>, found: &Vec<bool>) -> (r: Vec<String>)
    requires
        absolute@.len() == paths@.len(),
        found@.len() == paths@.len(),
    ensures
        views(r@) == kept(views(paths@), both(absolute@, found@)),
{
    let mut out: Vec<String> = Vec::new();
    let mut i: usize = 0;
    let ghost all = views(paths@);
    let ghost right = both(absolute@, found@);
    assert(views(out@) =~= Seq::<Seq<char>>::empty());
    while i < paths.len()
        invariant
            i <= paths@.len(),
            absolute@.len() == paths@.len(),
            found@.len() == paths@.len(),
            all == views(paths@),
            right == both(absolute@, found@),
            views(out@) == kept(all.take(i as int), right.take(i as int)),
        decreases paths@.len() - i,
    {
        proof {
            assert(all.take(i + 1).drop_last() =~= all.take(i as int));
            assert(right.take(i + 1).drop_last() =~= right.take(i as int));
        }
        if absolute[i] && found[i] {
            let path = paths[i].clone();
            proof {
                lemma_views_push(out@, path);
            }
            out.push(path);
        }
        i += 1;
    }
    assert(all.take(i as int) =~= all);
    assert(right.take(i as int) =~= right);
    out
}

/// Whether a path begins as an absolute one does: with a separator, or with a drive.
pub open spec fn looks_absolute(path: Seq<char>) -> bool {
    path.len() > 0 && (path[0] == '/' || path[0] == '\\' || (path.len() > 1 && path[1] == ':'))
}

/// `Path::is_absolute`. On every platform an absolute path begins with a separator or a
/// drive. Which of the paths that do are absolute is for the platform to say, so that is
/// not stated.
#[verifier::external_body]
fn path_is_absolute(path: &str) -> (r: bool)
    ensures
        r ==> looks_absolute(path@),
{
    std::path::Path::new(path).is_absolute()
}

/// `Path::exists`. The answer is what is on disk at the time, so nothing is claimed of
/// it.
#[verifier::external_body]
fn path_exists(path: &str) -> bool {
    std::path::Path::new(path).exists()
}

/// Whether a list is made of those candidates of a text that were taken for absolute and
/// were found.
pub open spec fn is_drop_with(
    paths: Seq<Seq<char>>,
    text: Seq<char>,
    absolute: Seq<bool>,
    found: Seq<bool>,
) -> bool {
    &&& absolute.len() == candidates(text).len()
    &&& found.len() == candidates(text).len()
    &&& forall|i: int|
        0 <= i < absolute.len() && #[trigger] absolute[i] ==> looks_absolute(candidates(text)[i])
    &&& paths == kept(candidates(text), both(absolute, found))
}

/// Whether a list is made of those candidates of a text that the platform takes for
/// absolute and that some look at the disk has found.
pub open spec fn is_drop_of(paths: Seq<Seq<char>>, text: Seq<char>) -> bool {
    exists|absolute: Seq<bool>, found: Seq<bool>|
        #[trigger] is_drop_with(paths, text, absolute, found)
}

/// The files that a pasted text is a drop of: its candidates that are absolute and on
/// disk. A text that is none gives an empty list.
pub fn parse_dropped_paths(s: &str) -> (r: Vec<String>)
    ensures
        is_drop_of(views(r@), s@),
{
    let paths = dropped_candidates(s);
    let mut absolute: Vec<bool> = Vec::new();
    let mut found: Vec<bool> = Vec::new();
    let mut i: usize = 0;
    while i < paths.len()
        invariant
            i <= paths@.len(),
            absolute@.len() == i,
            found@.len() == i,
            forall|k: int| 0 <= k < i && #[trigger] absolute@[k] ==> looks_absolute(paths@[k]@),
        decreases paths@.len() - i,
    {
        let path = paths[i].as_str();
        let is_absolute = path_is_absolute(path);
        absolute.push(is_absolute);
        found.push(is_absolute && path_exists(path));
        i += 1;
    }
    let kept_paths = keep_found(&paths, &absolute, &found);
    assert(is_drop_with(views(kept_paths@), s@, absolute@, found@));
    kept_paths
}

proof fn lemma_after_append(start: Splitting, a: Seq<char>, b: Seq<char>)
    ensures
        start.after(a + b) == start.after(a).after(b),
    decreases b.len(),
{
    if b.len() == 0 {
        assert(a + b =~= a);
    } else {
        assert((a + b).drop_last() =~= a + b.drop_last());
        lemma_after_append(start, a, b.drop_last());
    }
}

proof fn lemma_after_one(start: Splitting, c: char)
    ensures
        start.after(seq![c]) == start.next(c),
{
    assert(seq![c].drop_last() =~= Seq::<char>::empty());
    assert(start.after(Seq::<char>::empty()) == start);
    assert(start.after(seq![c]) == start.after(seq![c].drop_last()).next(seq![c].last()));
}

/// Words that were finished before stay in front of those that follow.
proof fn lemma_earlier_words_stay(start: Splitting, earlier: Seq<Seq<char>>, text: Seq<char>)
    ensures
        (Splitting { words: earlier + start.words, ..start }).after(text) == (Splitting {
            words: earlier + start.after(text).words,
            ..start.after(text)
        }),
    decreases text.len(),
{
    if text.len() > 0 {
        lemma_earlier_words_stay(start, earlier, text.drop_last());
        let at = start.after(text.drop_last());
        assert(earlier + at.words.push(at.word) =~= (earlier + at.words).push(at.word));
    }
}

/// No word is empty.
pub proof fn words_are_not_empty(line: Seq<char>)
    ensures
        forall|i: int| 0 <= i < words_of(line).len() ==> (#[trigger] words_of(line)[i]).len() > 0,
{
    lemma_finished_words_are_not_empty(line);
}

proof fn lemma_finished_words_are_not_empty(text: Seq<char>)
    ensures
        forall|i: int|
            0 <= i < unsplit().after(text).words.len() ==> (#[trigger] unsplit().after(
                text,
            ).words[i]).len() > 0,
    decreases text.len(),
{
    if text.len() > 0 {
        lemma_finished_words_are_not_empty(text.drop_last());
        let before = unsplit().after(text.drop_last());
        let at = unsplit().after(text);
        assert(at == before.next(text.last()));
        assert forall|i: int| 0 <= i < at.words.len() implies (#[trigger] at.words[i]).len() > 0 by {
            if i < before.words.len() {
                assert(at.words[i] == before.words[i]);
            }
        }
    }
}

/// White space between two texts separates their words: several files dropped at once
/// come out one by one. The first text has to have closed its quotes.
pub proof fn white_space_separates_words(a: Seq<char>, space: char, b: Seq<char>)
    requires
        unsplit().after(a).is_open(),
        white_space(space),
    ensures
        words_of(a + seq![space] + b) == words_of(a) + words_of(b),
{
    let first = unsplit().after(a);
    lemma_after_append(unsplit(), a + seq![space], b);
    assert((a + seq![space]).drop_last() =~= a);
    let between = unsplit().after(a + seq![space]);
    assert(between == first.next(space));
    assert(between.words =~= words_of(a) + unsplit().words);
    lemma_earlier_words_stay(unsplit(), words_of(a), b);
    let end = unsplit().after(b);
    assert((words_of(a) + end.words).push(end.word) =~= words_of(a) + end.words.push(end.word));
    assert((words_of(a) + end.words).push(end.word.push('\\')) =~= words_of(a) + end.words.push(
        end.word.push('\\'),
    ));
}

proof fn lemma_single_quoted(text: Seq<char>)
    requires
        !text.contains('\''),
    ensures
        unsplit().next('\'').after(text) == (Splitting { word: text, in_single: true, ..unsplit() }),
    decreases text.len(),
{
    if text.len() > 0 {
        let front = text.drop_last();
        assert forall|c: char| front.contains(c) implies text.contains(c) by {
            let i = choose|i: int| 0 <= i < front.len() && front[i] == c;
            assert(text[i] == c);
        }
        lemma_single_quoted(front);
        assert(text.contains(text[text.len() - 1]));
        assert(front.push(text.last()) =~= text);
    } else {
        assert(text =~= Seq::<char>::empty());
    }
}

/// A text in single quotes is one word, whatever else is in it: spaces, double quotes,
/// backslashes.
pub proof fn quoted_texts_are_one_word(text: Seq<char>)
    requires
        text.len() > 0,
        !text.contains('\''),
    ensures
        words_of(seq!['\''] + text + seq!['\'']) == seq![text],
{
    let open = seq!['\''];
    lemma_after_append(unsplit(), open + text, open);
    lemma_after_append(unsplit(), open, text);
    lemma_after_one(unsplit(), '\'');
    lemma_single_quoted(text);
    let inside = unsplit().after(open + text);
    lemma_after_one(inside, '\'');
    assert(words_of(open + text + open) =~= seq![text]);
}

/// A text with a backslash before each of its characters.
pub open spec fn backslashed(text: Seq<char>) -> Seq<char>
    decreases text.len(),
{
    if text.len() == 0 {
        Seq::empty()
    } else {
        backslashed(text.drop_last()).push('\\').push(text.last())
    }
}

proof fn lemma_backslashed(text: Seq<char>)
    ensures
        unsplit().after(backslashed(text)) == (Splitting { word: text, ..unsplit() }),
    decreases text.len(),
{
    if text.len() > 0 {
        let front = text.drop_last();
        lemma_backslashed(front);
        let whole = backslashed(text);
        assert(whole.drop_last() =~= backslashed(front).push('\\'));
        assert(whole.drop_last().drop_last() =~= backslashed(front));
        assert(unsplit().after(whole.drop_last()) == unsplit().after(backslashed(front)).next(
            '\\',
        ));
        assert(unsplit().after(whole) == unsplit().after(whole.drop_last()).next(text.last()));
        assert(front.push(text.last()) =~= text);
    } else {
        assert(text =~= Seq::<char>::empty());
    }
}

/// A text whose characters are all behind backslashes is one word.
pub proof fn backslashed_texts_are_one_word(text: Seq<char>)
    requires
        text.len() > 0,
    ensures
        words_of(backslashed(text)) == seq![text],
{
    lemma_backslashed(text);
    assert(words_of(backslashed(text)) =~= seq![text]);
}

/// Bytes without a percent sign stand for themselves.
proof fn lemma_unescaped_bytes_stay(bytes: Seq<u8>)
    requires
        !bytes.contains(0x25),
    ensures
        unescaped(bytes) == bytes,
    decreases bytes.len(),
{
    if bytes.len() > 0 {
        assert(bytes.contains(bytes[0]));
        let rest = bytes.skip(1);
        assert forall|b: u8| rest.contains(b) implies bytes.contains(b) by {
            let i = choose|i: int| 0 <= i < rest.len() && rest[i] == b;
            assert(bytes[i + 1] == b);
        }
        lemma_unescaped_bytes_stay(rest);
    }
    assert(unescaped(bytes) =~= bytes);
}

proof fn lemma_wide_bytes_are_high(c: u32)
    by (bit_vector)
    ensures
        leading_byte_width_2(c) >= 0x80,
        leading_byte_width_3(c) >= 0x80,
        leading_byte_width_4(c) >= 0x80,
        last_continuation_byte(c) >= 0x80,
        second_last_continuation_byte(c) >= 0x80,
        third_last_continuation_byte(c) >= 0x80,
        c <= 0x7f ==> leading_byte_width_1(c) == c,
{
}

/// The byte of an ASCII character stands in the encoding of that character alone.
proof fn lemma_encoding_has_no_percent(text: Seq<char>)
    requires
        !text.contains('%'),
    ensures
        !encode_utf8(text).contains(0x25),
    decreases text.len(),
{
    if text.len() > 0 {
        let rest = text.drop_first();
        assert forall|c: char| rest.contains(c) implies text.contains(c) by {
            let i = choose|i: int| 0 <= i < rest.len() && rest[i] == c;
            assert(text[i + 1] == c);
        }
        lemma_encoding_has_no_percent(rest);
        let first = encode_scalar(text[0] as u32);
        lemma_wide_bytes_are_high(text[0] as u32);
        let c = text[0];
        assert(text.contains(c) && c != '%');
        char_is_scalar(c);
        if c as u32 == 0x25 {
            char_u32_cast(c, 0x25);
        }
        assert forall|i: int| 0 <= i < first.len() implies first[i] != 0x25 by {
            if has_width_1_encoding(c as u32) {
                assert(first[i] == leading_byte_width_1(c as u32));
            }
        }
        let bytes = encode_utf8(text);
        assert forall|i: int| 0 <= i < bytes.len() implies bytes[i] != 0x25 by {
            if i >= first.len() {
                let later = encode_utf8(rest);
                assert(bytes[i] == later[i - first.len()]);
                assert(later.contains(later[i - first.len()]));
            }
        }
    }
}

/// A text without a percent sign decodes to itself, in whatever script it is written.
pub proof fn plain_texts_decode_to_themselves(text: Seq<char>)
    requires
        !text.contains('%'),
    ensures
        url_decoded(encode_utf8(text)) == text,
{
    lemma_encoding_has_no_percent(text);
    lemma_unescaped_bytes_stay(encode_utf8(text));
    encode_utf8_valid_utf8(text);
    encode_utf8_decode_utf8(text);
}

/// What counts as a drop is never invented: each path stood in the text as a word, or as
/// what a `file://` address leads to. And each begins as an absolute path does: a name or
/// a relative path that is pasted is never a drop.
pub proof fn drops_are_absolute_paths_of_the_text(paths: Seq<Seq<char>>, text: Seq<char>, i: int)
    requires
        is_drop_of(paths, text),
        0 <= i < paths.len(),
    ensures
        candidates(text).contains(paths[i]),
        looks_absolute(paths[i]),
{
    let (absolute, found) = choose|absolute: Seq<bool>, found: Seq<bool>|
        #[trigger] is_drop_with(paths, text, absolute, found);
    let right = both(absolute, found);
    lemma_kept_are_members(candidates(text), right, i);
    let k = choose|k: int|
        0 <= k < right.len() && right[k] && #[trigger] candidates(text)[k] == paths[i];
    assert(absolute[k]);
}

/// Whether a character stands for itself in a line: it neither separates words nor quotes
/// anything.
pub open spec fn is_plain_char(c: char) -> bool {
    !white_space(c) && c != '\\' && c != '\'' && c != '"'
}

/// Whether a text is a single word without anything to decode.
pub open spec fn is_plain_word(text: Seq<char>) -> bool {
    &&& text.len() > 0
    &&& forall|i: int| 0 <= i < text.len() ==> is_plain_char(#[trigger] text[i])
    &&& !begins_with(text, "file://"@)
}

proof fn lemma_plain_word(text: Seq<char>)
    requires
        forall|i: int| 0 <= i < text.len() ==> is_plain_char(#[trigger] text[i]),
    ensures
        unsplit().after(text) == (Splitting { word: text, ..unsplit() }),
    decreases text.len(),
{
    if text.len() > 0 {
        let front = text.drop_last();
        assert forall|i: int| 0 <= i < front.len() implies is_plain_char(#[trigger] front[i]) by {
            assert(front[i] == text[i]);
        }
        lemma_plain_word(front);
        assert(is_plain_char(text[text.len() - 1]));
        assert(front.push(text.last()) =~= text);
    } else {
        assert(text =~= Seq::<char>::empty());
    }
}

/// A plain word is its own one candidate.
pub proof fn plain_words_are_their_own_candidate(text: Seq<char>)
    requires
        is_plain_word(text),
    ensures
        candidates(text) == seq![text],
{
    assert forall|i: int| 0 <= i < text.len() implies text[i] != '\n' by {
        assert(is_plain_char(text[i]));
    }
    lemma_next_place_is(text, '\n', 0, text.len() as int);
    assert(text.subrange(0, text.len() as int) =~= text);
    assert(is_plain_char(text[0]) && is_plain_char(text[text.len() - 1]));
    assert(trims_at(text, text, 0, text.len() as int));
    lemma_trimmed(text, text);
    lemma_plain_word(text);
    let words = words_of(text);
    assert(words =~= seq![text]);
    assert(words.drop_last() =~= Seq::<Seq<char>>::empty());
    assert(paths_of(words.drop_last()) == Seq::<Seq<char>>::empty());
    assert(paths_of(words) =~= seq![text]);
}

/// A word or a relative path that is pasted is no drop, whether or not there is a file of
/// that name.
pub proof fn relative_paths_are_no_drop(paths: Seq<Seq<char>>, text: Seq<char>)
    requires
        is_plain_word(text),
        !looks_absolute(text),
        is_drop_of(paths, text),
    ensures
        paths.len() == 0,
{
    plain_words_are_their_own_candidate(text);
    if paths.len() > 0 {
        drops_are_absolute_paths_of_the_text(paths, text, 0);
    }
}

proof fn lemma_next_place_is(text: Seq<char>, c: char, start: int, place: int)
    requires
        0 <= start <= place <= text.len(),
        place < text.len() ==> text[place] == c,
        forall|i: int| start <= i < place ==> text[i] != c,
    ensures
        next_place(text, c, start) == place,
{
    lemma_next_place(text, c, start);
}

proof fn lemma_candidates_of_the_rest(a: Seq<char>, b: Seq<char>, start: int)
    requires
        0 <= start <= b.len(),
    ensures
        candidates_from(a + b, a.len() + start) == candidates_from(b, start),
    decreases b.len() - start,
{
    let text = a + b;
    let at = a.len() + start;
    let end = next_place(b, '\n', start);
    lemma_next_place(b, '\n', start);
    assert forall|i: int| at <= i < a.len() + end implies text[i] != '\n' by {
        assert(text[i] == b[i - a.len()]);
    }
    lemma_next_place_is(text, '\n', at, a.len() + end);
    assert(text.subrange(at, a.len() + end) =~= b.subrange(start, end));
    if end < b.len() {
        lemma_candidates_of_the_rest(a, b, end + 1);
    }
}

proof fn lemma_candidates_of_two(a: Seq<char>, b: Seq<char>, start: int)
    requires
        0 <= start <= a.len(),
    ensures
        candidates_from(a + seq!['\n'] + b, start) == candidates_from(a, start) + candidates(b),
    decreases a.len() - start,
{
    let text = a + seq!['\n'] + b;
    let end = next_place(a, '\n', start);
    lemma_next_place(a, '\n', start);
    assert forall|i: int| start <= i < end implies text[i] != '\n' by {
        assert(text[i] == a[i]);
    }
    assert(text[end] == '\n');
    lemma_next_place_is(text, '\n', start, end);
    assert(text.subrange(start, end) =~= a.subrange(start, end));
    let line = paths_of(words_of(trimmed(a.subrange(start, end))));
    if end < a.len() {
        lemma_candidates_of_two(a, b, end + 1);
        let rest = candidates_from(a, end + 1);
        assert(line + (rest + candidates(b)) =~= line + rest + candidates(b));
    } else {
        lemma_candidates_of_the_rest(a + seq!['\n'], b, 0);
    }
}

proof fn lemma_kept_of_two(
    paths: Seq<Seq<char>>,
    more: Seq<Seq<char>>,
    found: Seq<bool>,
    more_found: Seq<bool>,
)
    requires
        found.len() == paths.len(),
        more_found.len() == more.len(),
    ensures
        kept(paths + more, found + more_found) == kept(paths, found) + kept(more, more_found),
    decreases more.len(),
{
    if more.len() == 0 {
        assert(paths + more =~= paths);
        assert(found + more_found =~= found);
        assert(kept(paths, found) + kept(more, more_found) =~= kept(paths, found));
    } else {
        assert((paths + more).drop_last() =~= paths + more.drop_last());
        assert((found + more_found).drop_last() =~= found + more_found.drop_last());
        lemma_kept_of_two(paths, more.drop_last(), found, more_found.drop_last());
        let before = kept(more.drop_last(), more_found.drop_last());
        assert((kept(paths, found) + before).push(more.last()) =~= kept(paths, found)
            + before.push(more.last()));
    }
}

/// The paths of a text that an answer which depends on the path alone keeps.
pub open spec fn dropped(text: Seq<char>, found: spec_fn(Seq<char>) -> bool) -> Seq<Seq<char>> {
    kept(candidates(text), candidates(text).map_values(found))
}

/// Lines are read one by one: the paths of two texts with a line break between them are
/// those of the one and then those of the other, whatever quotes the first leaves open.
pub proof fn lines_are_read_one_by_one(
    a: Seq<char>,
    b: Seq<char>,
    found: spec_fn(Seq<char>) -> bool,
)
    ensures
        candidates(a + seq!['\n'] + b) == candidates(a) + candidates(b),
        dropped(a + seq!['\n'] + b, found) == dropped(a, found) + dropped(b, found),
{
    lemma_candidates_of_two(a, b, 0);
    let first = candidates(a);
    let second = candidates(b);
    assert((first + second).map_values(found) =~= first.map_values(found) + second.map_values(
        found,
    ));
    lemma_kept_of_two(first, second, first.map_values(found), second.map_values(found));
}

proof fn lemma_blank_line(line: Seq<char>)
    requires
        forall|i: int| 0 <= i < line.len() ==> white_space(#[trigger] line[i]),
    ensures
        paths_of(words_of(trimmed(line))) == Seq::<Seq<char>>::empty(),
{
    let nothing = Seq::<char>::empty();
    assert(line.subrange(0, 0) =~= nothing);
    assert(trims_at(nothing, line, 0, 0));
    assert(is_trim_of(nothing, line));
    lemma_trimmed(nothing, line);
    assert(unsplit().after(nothing) == unsplit());
    assert(words_of(nothing) =~= Seq::<Seq<char>>::empty());
}

proof fn lemma_blank_candidates(text: Seq<char>, start: int)
    requires
        0 <= start <= text.len(),
        forall|i: int| 0 <= i < text.len() ==> white_space(#[trigger] text[i]),
    ensures
        candidates_from(text, start) == Seq::<Seq<char>>::empty(),
    decreases text.len() - start,
{
    let end = next_place(text, '\n', start);
    lemma_next_place(text, '\n', start);
    lemma_blank_line(text.subrange(start, end));
    if end < text.len() {
        lemma_blank_candidates(text, end + 1);
    }
    assert(candidates_from(text, start) =~= Seq::<Seq<char>>::empty());
}

/// A blank text is a drop of nothing, and blank lines before or after a text add nothing
/// to it: neither does a line break at its end.
pub proof fn blank_lines_add_nothing(text: Seq<char>, blank: Seq<char>)
    requires
        forall|i: int| 0 <= i < blank.len() ==> white_space(#[trigger] blank[i]),
    ensures
        candidates(blank) == Seq::<Seq<char>>::empty(),
        candidates(text + seq!['\n'] + blank) == candidates(text),
        candidates(blank + seq!['\n'] + text) == candidates(text),
{
    lemma_blank_candidates(blank, 0);
    lemma_candidates_of_two(text, blank, 0);
    lemma_candidates_of_two(blank, text, 0);
    assert(candidates(text) + candidates(blank) =~= candidates(text));
    assert(candidates(blank) + candidates(text) =~= candidates(text));
}

proof fn lemma_kept_are_members(paths: Seq<Seq<char>>, found: Seq<bool>, i: int)
    requires
        found.len() == paths.len(),
        0 <= i < kept(paths, found).len(),
    ensures
        exists|k: int|
            0 <= k < paths.len() && found[k] && #[trigger] paths[k] == kept(paths, found)[i],
    decreases paths.len(),
{
    let before = kept(paths.drop_last(), found.drop_last());
    if i < before.len() {
        lemma_kept_are_members(paths.drop_last(), found.drop_last(), i);
        let k = choose|k: int|
            0 <= k < paths.drop_last().len() && found.drop_last()[k]
                && #[trigger] paths.drop_last()[k] == before[i];
        assert(found[k] && paths[k] == before[i]);
    } else {
        assert(paths[paths.len() - 1] == kept(paths, found)[i]);
    }
}

proof fn lemma_double_quoted(text: Seq<char>)
    requires
        !text.contains('"'),
        !text.contains('\\'),
    ensures
        unsplit().next('"').after(text) == (Splitting { word: text, in_double: true, ..unsplit() }),
    decreases text.len(),
{
    if text.len() > 0 {
        let front = text.drop_last();
        assert forall|c: char| front.contains(c) implies text.contains(c) by {
            let i = choose|i: int| 0 <= i < front.len() && front[i] == c;
            assert(text[i] == c);
        }
        lemma_double_quoted(front);
        assert(text.contains(text[text.len() - 1]));
        assert(front.push(text.last()) =~= text);
    } else {
        assert(text =~= Seq::<char>::empty());
    }
}

/// A text in double quotes is one word, whatever spaces and single quotes are in it.
pub proof fn double_quoted_texts_are_one_word(text: Seq<char>)
    requires
        text.len() > 0,
        !text.contains('"'),
        !text.contains('\\'),
    ensures
        words_of(seq!['"'] + text + seq!['"']) == seq![text],
{
    let open = seq!['"'];
    lemma_after_append(unsplit(), open + text, open);
    lemma_after_append(unsplit(), open, text);
    lemma_after_one(unsplit(), '"');
    lemma_double_quoted(text);
    let inside = unsplit().after(open + text);
    lemma_after_one(inside, '"');
    assert(words_of(open + text + open) =~= seq![text]);
}

/// A backslash at the end of a line, with nothing behind it to take, stays in the word.
pub proof fn last_backslashes_stay(text: Seq<char>)
    requires
        is_plain_word(text),
    ensures
        words_of(text.push('\\')) == seq![text.push('\\')],
{
    lemma_plain_word(text);
    assert(text.push('\\').drop_last() =~= text);
    assert(words_of(text.push('\\')) =~= seq![text.push('\\')]);
}

/// A backslash takes the next character into the word as it is, in double quotes too.
pub proof fn backslashes_take_the_next_character(at: Splitting, c: char)
    requires
        !at.escaped,
        !at.in_single,
    ensures
        at.next('\\').next(c) == (Splitting { word: at.word.push(c), ..at }),
{
}

/// Digits of base sixteen count up from zero to nine and from ten to fifteen, small and
/// capital letters alike, and nothing else is one.
pub proof fn base_sixteen_counts_up(b: u8)
    ensures
        hex_value(0x30) == Some(0int),
        hex_value(0x61) == Some(10int),
        0x30 <= b < 0x39 || 0x61 <= b < 0x66 ==> hex_value((b + 1) as u8) == Some(
            hex_value(b)->0 + 1,
        ),
        0x61 <= b <= 0x66 ==> hex_value((b - 0x20) as u8) == hex_value(b),
        hex_value(b) is Some <==> 0x30 <= b <= 0x39 || 0x41 <= b <= 0x46 || 0x61 <= b <= 0x66,
{
}

/// A percent sign and two digits stand for one byte, the first digit counting sixteen times. A
/// percent sign with anything else behind it stands for itself.
pub proof fn escapes_stand_for_bytes(hi: u8, lo: u8, rest: Seq<u8>)
    ensures
        hex_value(hi) is Some && hex_value(lo) is Some ==> unescaped(seq![0x25u8, hi, lo] + rest)
            == seq![(16 * hex_value(hi)->0 + hex_value(lo)->0) as u8] + unescaped(rest),
        hex_value(hi) is None || hex_value(lo) is None ==> unescaped(seq![0x25u8, hi, lo] + rest)
            == seq![0x25u8] + unescaped(seq![hi, lo] + rest),
        unescaped(seq![0x25u8]) == seq![0x25u8],
        unescaped(seq![0x25u8, hi]) == seq![0x25u8] + unescaped(seq![hi]),
        hi != 0x25 ==> unescaped(seq![hi] + rest) == seq![hi] + unescaped(rest),
{
    let whole = seq![0x25u8, hi, lo] + rest;
    assert(whole.skip(3) =~= rest);
    assert(whole.skip(1) =~= seq![hi, lo] + rest);
    assert((seq![hi] + rest).skip(1) =~= rest);
    assert(seq![0x25u8].skip(1) =~= Seq::<u8>::empty());
    assert(unescaped(seq![0x25u8].skip(1)) =~= Seq::<u8>::empty());
    assert(unescaped(seq![0x25u8]) =~= seq![0x25u8]);
    assert(seq![0x25u8, hi].skip(1) =~= seq![hi]);
}

/// A word that is no address is a path as it stands, and an address leads to what stands
/// behind `file://`, decoded.
pub proof fn words_stand_for_paths(word: Seq<char>)
    requires
        word.len() > 0,
    ensures
        !begins_with(word, "file://"@) ==> path_of(word) == Some(word),
        word[0] == '/' && !word.contains('%') ==> path_of("file://"@ + word) == Some(word),
        path_of("file://"@) is None,
        path_of(Seq::empty()) is None,
{
    reveal_strlit("file://");
    reveal_strlit("localhost");
    let address = "file://"@ + word;
    assert(address.take(7) =~= "file://"@);
    assert(address.skip(7) =~= word);
    if begins_with(word, "localhost"@) {
        assert(word.take(9)[0] == 'l');
    }
    if !word.contains('%') {
        plain_texts_decode_to_themselves(word);
    }
    let bare = "file://"@;
    let none = Seq::<char>::empty();
    assert(bare.take(7) =~= bare);
    assert(bare.skip(7) =~= none);
    assert(!none.contains('%'));
    plain_texts_decode_to_themselves(none);
}

/// The paths that were found are kept, in their order, and no others.
pub proof fn found_paths_are_kept_in_order(
    paths: Seq<Seq<char>>,
    found: Seq<bool>,
    more: Seq<Seq<char>>,
    more_found: Seq<bool>,
    path: Seq<char>,
)
    requires
        found.len() == paths.len(),
        more_found.len() == more.len(),
    ensures
        kept(paths + more, found + more_found) == kept(paths, found) + kept(more, more_found),
        kept(seq![path], seq![true]) == seq![path],
        kept(seq![path], seq![false]).len() == 0,
{
    lemma_kept_of_two(paths, more, found, more_found);
    let none = Seq::<Seq<char>>::empty();
    assert(seq![path].drop_last() =~= none);
    assert(kept(seq![path].drop_last(), seq![true].drop_last()) == none);
    assert(kept(seq![path].drop_last(), seq![false].drop_last()) == none);
    assert(kept(seq![path], seq![true]) =~= seq![path]);
}

/// A path begins as an absolute one does behind a slash, a backslash or the letter of a drive,
/// and a name or an empty text does not.
pub proof fn absolute_paths_begin_so(rest: Seq<char>, first: char)
    ensures
        looks_absolute(seq!['/'] + rest),
        looks_absolute(seq!['\\'] + rest),
        looks_absolute(seq![first, ':'] + rest),
        !looks_absolute(Seq::empty()),
        first != '/' && first != '\\' && (rest.len() == 0 || rest[0] != ':') ==> !looks_absolute(
            seq![first] + rest,
        ),
{
}

} // verus!
