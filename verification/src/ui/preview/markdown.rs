//! The reading view of a Markdown file: its rows on screen, and what is in them.

use crate::layout::{monus, smaller};
use crate::ui::preview::wrap::{are_byte_ranges, wrap_text_ranges, wrapped};
use crate::ui::slices::{lemma_char_at, lemma_whole, slice};
use crate::ui::style::TextStyle;
use crate::ui::width::{
    byte_at, bytes_in, lemma_byte_at_ends, lemma_byte_at_grows, lemma_bytes_are_utf8,
};
use vstd::prelude::*;

verus! {

/// What a piece of Markdown is.
#[derive(Clone, Copy, Debug, PartialEq, Eq, Structural)]
pub enum MarkdownRole {
    Normal,
    Heading,
    Quote,
    Code,
    CodeBlockHeader,
    CodeBlockText,
    Link,
    TableHeader,
    Border,
}

/// A piece of a row.
#[derive(Debug)]
pub struct MarkdownSpan {
    pub text: String,
    pub role: MarkdownRole,
    pub bold: bool,
    pub italic: bool,
    pub link: Option<String>,
    /// How the code of a code block is coloured.
    pub syntax: Option<TextStyle>,
}

/// A row of the rendered page, before it is broken to the width of the screen.
#[derive(Debug)]
pub struct MarkdownRow {
    pub spans: Vec<MarkdownSpan>,
    /// The texts of the spans, one after another.
    pub text: String,
}

/// A Markdown file: its rendered rows, or its lines where it was not rendered.
#[derive(Debug)]
pub struct MarkdownDoc {
    pub rows: Option<Vec<MarkdownRow>>,
    pub source_lines: Vec<String>,
}

/// A row on screen: a part of a row of the page, as a range of its bytes.
#[derive(Clone, Copy, Debug, PartialEq, Eq, Structural)]
pub struct MarkdownVisualRow {
    pub logical_row: usize,
    pub byte_start: usize,
    pub byte_end: usize,
}

/// Whether a role keeps its row in one piece: code blocks and tables.
pub open spec fn keeps_width(role: MarkdownRole) -> bool {
    role == MarkdownRole::CodeBlockHeader || role == MarkdownRole::CodeBlockText || role
        == MarkdownRole::Border
}

/// Whether a row is prose, which is broken to the width of the screen.
pub open spec fn is_prose(spans: Seq<MarkdownSpan>) -> bool {
    forall|i: int| 0 <= i < spans.len() ==> !keeps_width((#[trigger] spans[i]).role)
}

/// Whether a row is prose, which is broken to the width of the screen.
pub fn row_wraps(row: &Vec<MarkdownSpan>) -> (r: bool)
    ensures
        r == is_prose(row@),
{
    let mut i: usize = 0;
    while i < row.len()
        invariant
            i <= row@.len(),
            forall|k: int| 0 <= k < i ==> !keeps_width((#[trigger] row@[k]).role),
        decreases row@.len() - i,
    {
        let role = row[i].role;
        if role == MarkdownRole::CodeBlockHeader || role == MarkdownRole::CodeBlockText || role
            == MarkdownRole::Border {
            assert(keeps_width(row@[i as int].role));
            return false;
        }
        i += 1;
    }
    true
}

/// The rows on screen of one row of the page.
pub open spec fn visual_rows(logical: int, text: Seq<char>, wraps: bool, width: int) -> Seq<
    MarkdownVisualRow,
> {
    if wraps {
        let rows = wrapped(text, width);
        Seq::new(
            rows.len(),
            |i: int|
                MarkdownVisualRow {
                    logical_row: logical as usize,
                    byte_start: byte_at(text, rows[i].0) as usize,
                    byte_end: byte_at(text, rows[i].1) as usize,
                },
        )
    } else {
        seq![
            MarkdownVisualRow {
                logical_row: logical as usize,
                byte_start: 0,
                byte_end: bytes_in(text) as usize,
            },
        ]
    }
}

impl MarkdownDoc {
    /// How many rows the page has.
    pub open spec fn row_count(self) -> int {
        match self.rows {
            Some(rows) => rows@.len() as int,
            None => self.source_lines@.len() as int,
        }
    }

    /// The text of a row of the page.
    pub open spec fn row_text(self, i: int) -> Seq<char> {
        match self.rows {
            Some(rows) => rows@[i].text@,
            None => self.source_lines@[i]@,
        }
    }

    /// Whether a row of the page is broken to the width of the screen. Source lines
    /// always are.
    pub open spec fn row_is_prose(self, i: int) -> bool {
        match self.rows {
            Some(rows) => is_prose(rows@[i].spans@),
            None => true,
        }
    }

    /// The rows on screen of the first `n` rows of the page.
    pub open spec fn laid_out(self, n: int, width: int) -> Seq<MarkdownVisualRow>
        decreases n,
    {
        if n <= 0 {
            Seq::empty()
        } else {
            self.laid_out(n - 1, width) + visual_rows(
                n - 1,
                self.row_text(n - 1),
                self.row_is_prose(n - 1),
                width,
            )
        }
    }
}

/// The rows on screen of the page that is shown.
#[derive(Debug)]
pub struct MarkdownLayoutCache {
    pub preview_id: usize,
    pub width: usize,
    pub rows: Vec<MarkdownVisualRow>,
}

impl Default for MarkdownLayoutCache {
    fn default() -> (r: MarkdownLayoutCache)
        ensures
            r.preview_id == 0,
            r.width == 0,
            r.rows@ == Seq::<MarkdownVisualRow>::empty(),
    {
        MarkdownLayoutCache { preview_id: 0, width: 0, rows: Vec::new() }
    }
}

/// Whether the rows on screen follow the rows of the page.
pub open spec fn in_page_order(rows: Seq<MarkdownVisualRow>) -> bool {
    forall|i: int, j: int|
        0 <= i <= j < rows.len() ==> (#[trigger] rows[i]).logical_row <= (
        #[trigger] rows[j]).logical_row
}

/// The place of the first row on screen that belongs to this row of the page or a later
/// one, or how many there are.
pub open spec fn first_at(rows: Seq<MarkdownVisualRow>, logical: int, from: int) -> int
    decreases rows.len() - from,
{
    if from < 0 || from >= rows.len() || rows[from].logical_row >= logical {
        from
    } else {
        first_at(rows, logical, from + 1)
    }
}

impl MarkdownLayoutCache {
    pub open spec fn wf(self) -> bool {
        in_page_order(self.rows@)
    }

    /// Lays the page out anew if it is another page or another width. Tells whether it
    /// was.
    pub fn ensure(&mut self, preview_id: usize, markdown: &MarkdownDoc, width: usize) -> (r: bool)
        ensures
            r == !(old(self).preview_id == preview_id && old(self).width == width),
            !r ==> *final(self) == *old(self),
            r ==> final(self).preview_id == preview_id && final(self).width == width
                && final(self).rows@ == markdown.laid_out(markdown.row_count(), width as int)
                && final(self).wf(),
    {
        if self.preview_id == preview_id && self.width == width {
            return false;
        }
        self.preview_id = preview_id;
        self.width = width;
        self.rows = Vec::new();
        match &markdown.rows {
            Some(rows) => {
                let mut i: usize = 0;
                while i < rows.len()
                    invariant
                        i <= rows@.len(),
                        markdown.rows == Some(*rows),
                        self.preview_id == preview_id,
                        self.width == width,
                        self.rows@ == markdown.laid_out(i as int, width as int),
                    decreases rows@.len() - i,
                {
                    if row_wraps(&rows[i].spans) {
                        self.push_wrapped_row(i, rows[i].text.as_str(), width);
                    } else {
                        let bytes = rows[i].text.as_str().as_bytes();
                        let byte_end: usize = bytes.len();
                        proof {
                            lemma_bytes_are_utf8(rows@[i as int].text@);
                        }
                        let ghost before = self.rows@;
                        self.rows.push(
                            MarkdownVisualRow { logical_row: i, byte_start: 0, byte_end },
                        );
                        assert(self.rows@ =~= before + visual_rows(
                            i as int,
                            markdown.row_text(i as int),
                            false,
                            width as int,
                        ));
                    }
                    i += 1;
                }
            },
            None => {
                let mut i: usize = 0;
                while i < markdown.source_lines.len()
                    invariant
                        i <= markdown.source_lines@.len(),
                        markdown.rows is None,
                        self.preview_id == preview_id,
                        self.width == width,
                        self.rows@ == markdown.laid_out(i as int, width as int),
                    decreases markdown.source_lines@.len() - i,
                {
                    self.push_wrapped_row(i, markdown.source_lines[i].as_str(), width);
                    i += 1;
                }
            },
        }
        proof {
            lemma_laid_out_in_order(*markdown, markdown.row_count(), width as int);
        }
        true
    }

    /// Appends the rows on screen of a row of prose.
    pub fn push_wrapped_row(&mut self, logical_row: usize, text: &str, width: usize)
        ensures
            final(self).preview_id == old(self).preview_id,
            final(self).width == old(self).width,
            final(self).rows@ == old(self).rows@ + visual_rows(
                logical_row as int,
                text@,
                true,
                width as int,
            ),
    {
        let ranges = wrap_text_ranges(text, width);
        let mut i: usize = 0;
        let ghost before = self.rows@;
        let ghost added = visual_rows(logical_row as int, text@, true, width as int);
        assert(before + added.take(0) =~= before);
        while i < ranges.len()
            invariant
                i <= ranges@.len(),
                are_byte_ranges(ranges@, text@, wrapped(text@, width as int)),
                added == visual_rows(logical_row as int, text@, true, width as int),
                self.preview_id == old(self).preview_id,
                self.width == old(self).width,
                self.rows@ == before + added.take(i as int),
            decreases ranges@.len() - i,
        {
            let row = MarkdownVisualRow {
                logical_row,
                byte_start: ranges[i].start,
                byte_end: ranges[i].end,
            };
            self.rows.push(row);
            proof {
                assert(row == added[i as int]);
                assert(added.take(i + 1) =~= added.take(i as int).push(row));
                assert((before + added.take(i as int)).push(row) =~= before + added.take(i + 1));
            }
            i += 1;
        }
        assert(added.take(i as int) =~= added);
    }

    /// Whether this is the layout of the page.
    pub fn matches(&self, preview_id: usize) -> (r: bool)
        ensures
            r == (self.preview_id == preview_id),
    {
        self.preview_id == preview_id
    }

    /// How many rows there are on screen.
    pub fn len(&self) -> (r: usize)
        ensures
            r == self.rows@.len(),
    {
        self.rows.len()
    }

    /// A row on screen.
    pub fn row(&self, visual_row: usize) -> (r: Option<MarkdownVisualRow>)
        ensures
            r == (if visual_row < self.rows@.len() {
                Some(self.rows@[visual_row as int])
            } else {
                None
            }),
    {
        if visual_row < self.rows.len() {
            Some(self.rows[visual_row])
        } else {
            None
        }
    }

    /// The first row on screen of a row of the page; the last one there is, for rows
    /// past the end.
    pub open spec fn first_row(self, logical: int) -> int {
        smaller(first_at(self.rows@, logical, 0), monus(self.rows@.len() as int, 1))
    }

    /// The first row on screen of a row of the page.
    pub fn first_visual_row(&self, logical_row: usize) -> (r: usize)
        requires
            self.wf(),
        ensures
            r == self.first_row(logical_row as int),
    {
        let mut low: usize = 0;
        let mut high: usize = self.rows.len();
        while low < high
            invariant
                low <= high <= self.rows@.len(),
                self.wf(),
                forall|k: int| 0 <= k < low ==> self.rows@[k].logical_row < logical_row,
                forall|k: int|
                    high <= k < self.rows@.len() ==> self.rows@[k].logical_row >= logical_row,
            decreases high - low,
        {
            let mid: usize = low + (high - low) / 2;
            if self.rows[mid].logical_row < logical_row {
                low = mid + 1;
            } else {
                high = mid;
            }
        }
        proof {
            lemma_first_at(self.rows@, logical_row as int, 0, low as int);
        }
        let last: usize = self.rows.len().saturating_sub(1);
        if low < last {
            low
        } else {
            last
        }
    }

    /// How far the rows can be scrolled with `view_height` of them on screen.
    #[verifier::allow_in_spec]
    pub fn max_scroll(&self, view_height: usize) -> usize
        returns
            (if self.rows@.len() > view_height {
                (self.rows@.len() - view_height) as usize
            } else {
                0usize
            }),
    {
        self.rows.len().saturating_sub(view_height)
    }
}

proof fn lemma_first_at(rows: Seq<MarkdownVisualRow>, logical: int, from: int, place: int)
    requires
        0 <= from <= place <= rows.len(),
        forall|k: int| 0 <= k < place ==> rows[k].logical_row < logical,
        place < rows.len() ==> rows[place].logical_row >= logical,
    ensures
        first_at(rows, logical, from) == place,
    decreases place - from,
{
    if from < place {
        lemma_first_at(rows, logical, from + 1, place);
    }
}

proof fn lemma_laid_out_in_order(doc: MarkdownDoc, n: int, width: int)
    requires
        0 <= n <= doc.row_count(),
        doc.row_count() <= usize::MAX,
    ensures
        in_page_order(doc.laid_out(n, width)),
        forall|i: int|
            0 <= i < doc.laid_out(n, width).len() ==> (#[trigger] doc.laid_out(
                n,
                width,
            )[i]).logical_row < n,
    decreases n,
{
    if n > 0 {
        lemma_laid_out_in_order(doc, n - 1, width);
        let before = doc.laid_out(n - 1, width);
        let added = visual_rows(n - 1, doc.row_text(n - 1), doc.row_is_prose(n - 1), width);
        let rows = doc.laid_out(n, width);
        assert(rows =~= before + added);
        assert forall|i: int| 0 <= i < rows.len() implies (#[trigger] rows[i]).logical_row < n
            && (i >= before.len() ==> rows[i].logical_row == n - 1) by {
            if i < before.len() {
                assert(rows[i] == before[i]);
            } else {
                assert(rows[i] == added[i - before.len()]);
            }
        }
        assert forall|i: int, j: int| 0 <= i <= j < rows.len() implies (
        #[trigger] rows[i]).logical_row <= (#[trigger] rows[j]).logical_row by {
            if j < before.len() {
                assert(rows[i] == before[i] && rows[j] == before[j]);
            } else if i < before.len() {
                assert(rows[i] == before[i]);
            }
        }
    }
}

/// The rows on screen follow the rows of the page, whatever the page and the width.
pub proof fn rows_follow_the_page(doc: MarkdownDoc, width: int)
    requires
        doc.row_count() <= usize::MAX,
    ensures
        in_page_order(doc.laid_out(doc.row_count(), width)),
{
    lemma_laid_out_in_order(doc, doc.row_count(), width);
}

pub proof fn lemma_first_at_is_first(rows: Seq<MarkdownVisualRow>, logical: int, from: int)
    requires
        0 <= from <= rows.len(),
    ensures
        from <= first_at(rows, logical, from) <= rows.len(),
        forall|k: int|
            from <= k < first_at(rows, logical, from) ==> (#[trigger] rows[k]).logical_row
                < logical,
        first_at(rows, logical, from) < rows.len() ==> rows[first_at(
            rows,
            logical,
            from,
        )].logical_row >= logical,
    decreases rows.len() - from,
{
    if from < rows.len() && rows[from].logical_row < logical {
        lemma_first_at_is_first(rows, logical, from + 1);
    }
}

/// The first row on screen of a row of the page is the first of those that belong to it or to
/// a later one; for rows past the end it is the last one there is.
pub proof fn first_rows_are_first(layout: MarkdownLayoutCache, logical: int)
    requires
        layout.rows@.len() > 0,
    ensures
        ({
            let rows = layout.rows@;
            let at = layout.first_row(logical);
            &&& 0 <= at < rows.len()
            &&& forall|k: int| 0 <= k < at ==> (#[trigger] rows[k]).logical_row < logical
            &&& at < rows.len() - 1 ==> rows[at].logical_row >= logical
            &&& (exists|k: int| 0 <= k < rows.len() && (#[trigger] rows[k]).logical_row >= logical)
                ==> rows[at].logical_row >= logical
        }),
{
    lemma_first_at_is_first(layout.rows@, logical, 0);
}

/// Prose is broken to the width of the screen; a row with a piece of a code block or of a
/// table's frame in it keeps its width, and so has one row on screen, from its first byte to
/// its last.
pub proof fn code_and_tables_keep_their_width(
    spans: Seq<MarkdownSpan>,
    logical: int,
    text: Seq<char>,
    width: int,
)
    requires
        0 <= logical <= usize::MAX,
        bytes_in(text) <= usize::MAX,
    ensures
        is_prose(spans) <==> forall|i: int|
            0 <= i < spans.len() ==> (#[trigger] spans[i]).role != MarkdownRole::CodeBlockHeader
                && spans[i].role != MarkdownRole::CodeBlockText && spans[i].role
                != MarkdownRole::Border,
        visual_rows(logical, text, false, width) == seq![
            MarkdownVisualRow {
                logical_row: logical as usize,
                byte_start: 0,
                byte_end: bytes_in(text) as usize,
            },
        ],
        visual_rows(logical, text, true, width).len() == wrapped(text, width).len(),
        forall|i: int|
            0 <= i < visual_rows(logical, text, true, width).len() ==> (#[trigger] visual_rows(
                logical,
                text,
                true,
                width,
            )[i]).logical_row == logical && visual_rows(logical, text, true, width)[i].byte_start
                == byte_at(text, wrapped(text, width)[i].0) as usize && visual_rows(
                logical,
                text,
                true,
                width,
            )[i].byte_end == byte_at(text, wrapped(text, width)[i].1) as usize,
{
    if is_prose(spans) {
        assert forall|i: int| 0 <= i < spans.len() implies (#[trigger] spans[i]).role
            != MarkdownRole::CodeBlockHeader && spans[i].role != MarkdownRole::CodeBlockText
            && spans[i].role != MarkdownRole::Border by {
            assert(!keeps_width(spans[i].role));
        }
    }
}

/// The rows on screen are those of the rows of the page, one after another: a page with one
/// more row has the rows of the page without it, and then those of that row.
pub proof fn pages_are_laid_out_row_by_row(doc: MarkdownDoc, n: int, width: int)
    requires
        0 < n <= doc.row_count(),
    ensures
        doc.laid_out(n, width).len() == doc.laid_out(n - 1, width).len() + visual_rows(
            n - 1,
            doc.row_text(n - 1),
            doc.row_is_prose(n - 1),
            width,
        ).len(),
        forall|i: int|
            0 <= i < doc.laid_out(n - 1, width).len() ==> #[trigger] doc.laid_out(n, width)[i]
                == doc.laid_out(n - 1, width)[i],
        doc.rows is None ==> doc.row_is_prose(n - 1) && doc.row_text(n - 1)
            == doc.source_lines@[n - 1]@,
        doc.rows matches Some(rows) ==> doc.row_text(n - 1) == rows@[n - 1].text@,
{
}

/// A row of prose comes on screen as the rows that it is broken into, and any other row as one
/// that is whole: each is given by the bytes of its characters.
pub proof fn rows_on_screen_are_parts_of_the_page(
    logical: usize,
    text: Seq<char>,
    width: int,
    i: int,
)
    requires
        bytes_in(text) <= usize::MAX,
        0 <= i < wrapped(text, width).len(),
        0 <= wrapped(text, width)[i].0 <= wrapped(text, width)[i].1 <= text.len(),
    ensures
        ({
            let cut = wrapped(text, width)[i];
            let row = visual_rows(logical as int, text, true, width)[i];
            &&& visual_rows(logical as int, text, true, width).len() == wrapped(text, width).len()
            &&& row.logical_row == logical
            &&& slice(text, row.byte_start as int, row.byte_end as int) == text.subrange(
                cut.0,
                cut.1,
            )
        }),
        ({
            let whole = visual_rows(logical as int, text, false, width);
            &&& whole.len() == 1 && whole[0].logical_row == logical
            &&& slice(text, whole[0].byte_start as int, whole[0].byte_end as int) == text
        }),
{
    let cut = wrapped(text, width)[i];
    lemma_byte_at_ends(text);
    lemma_byte_at_grows(text, 0, cut.0);
    lemma_byte_at_grows(text, cut.0, cut.1);
    lemma_byte_at_grows(text, cut.1, text.len() as int);
    lemma_char_at(text, cut.0);
    lemma_char_at(text, cut.1);
    lemma_whole(text);
}

} // verus!
