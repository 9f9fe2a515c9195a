//! The reading view of a Markdown file on screen: how far it is scrolled, and what is in
//! each of its rows.

use crate::engine::FindTarget;
use crate::geometry::Rect;
use crate::layout::{larger, monus, smaller};
use crate::ui::preview::markdown::{
    visual_rows, MarkdownDoc, MarkdownLayoutCache, MarkdownSpan, MarkdownVisualRow,
};
use crate::ui::preview::markdown_spans::{
    are_parts, backdrop, columns_before, intersect_range, intersect_ranges, joined, lies_on,
    link_hover_style, look, overlap, overlaps, parts, register_links, row_bg, slice_row_spans,
    span_hovered, span_style, zones, LinkZone, VisibleMarkdownSpan,
};
use crate::ui::preview::wrap::{wrapped, wrapping_keeps_the_text};
use crate::ui::slices::{can_cut, lemma_char_at, lemma_whole, slice, slice_bytes};
use crate::ui::style::{Color, TextStyle, Palette};
use crate::ui::width::{
    bytes_in, lemma_byte_at_ends, lemma_byte_at_grows, lemma_bytes_are_utf8, text_columns,
    text_width,
};
use std::ops::Range;
use vstd::prelude::*;

verus! {

/// How far the page is scrolled.
#[derive(Debug)]
pub struct MarkdownView {
    pub layout: MarkdownLayoutCache,
    /// The first row on screen.
    pub visual_scroll: usize,
    /// The engine's scroll position, a row of the page, when it was last looked at.
    pub engine_scroll_seen: Option<usize>,
}

impl Default for MarkdownView {
    fn default() -> (r: MarkdownView)
        ensures
            r.layout.rows@ == Seq::<MarkdownVisualRow>::empty(),
            r.layout.preview_id == 0,
            r.layout.width == 0,
            r.visual_scroll == 0,
            r.engine_scroll_seen is None,
    {
        MarkdownView {
            layout: MarkdownLayoutCache::default(),
            visual_scroll: 0,
            engine_scroll_seen: None,
        }
    }
}

impl MarkdownView {
    /// Where the view scrolls to. It follows the engine when that has scrolled, or when
    /// the page is laid out anew, and stays where it is otherwise; never past the last
    /// screenful.
    pub open spec fn scroll_after(
        self,
        engine_scroll: usize,
        layout_changed: bool,
        content_height: usize,
    ) -> int {
        let max = self.layout.max_scroll(content_height) as int;
        if layout_changed || self.engine_scroll_seen != Some(engine_scroll) {
            if engine_scroll == usize::MAX {
                max
            } else {
                smaller(self.layout.first_row(engine_scroll as int), max)
            }
        } else {
            smaller(self.visual_scroll as int, max)
        }
    }

    /// The row of the page that is the first on screen.
    pub open spec fn page_row(self) -> int {
        if self.visual_scroll < self.layout.rows@.len() {
            self.layout.rows@[self.visual_scroll as int].logical_row as int
        } else {
            0
        }
    }

    /// Brings the view and the engine's scroll position together. Returns the row of the
    /// page that the engine has to scroll to, if it is not there yet.
    pub fn sync_visual_scroll(
        &mut self,
        engine_scroll: usize,
        layout_changed: bool,
        content_height: usize,
    ) -> (r: Option<usize>)
        requires
            old(self).layout.wf(),
        ensures
            final(self).layout == old(self).layout,
            final(self).visual_scroll == old(self).scroll_after(
                engine_scroll,
                layout_changed,
                content_height,
            ),
            final(self).engine_scroll_seen == Some(final(self).page_row() as usize),
            r == (if engine_scroll == final(self).page_row() {
                None
            } else {
                Some(final(self).page_row() as usize)
            }),
    {
        let max: usize = self.layout.max_scroll(content_height);
        let follows = layout_changed || match self.engine_scroll_seen {
            Some(seen) => seen != engine_scroll,
            None => true,
        };
        let scroll: usize = if follows {
            if engine_scroll == usize::MAX {
                max
            } else {
                self.layout.first_visual_row(engine_scroll).min(max)
            }
        } else {
            self.visual_scroll.min(max)
        };
        self.visual_scroll = scroll;
        let page_row: usize = match self.layout.row(scroll) {
            Some(row) => row.logical_row,
            None => 0,
        };
        self.engine_scroll_seen = Some(page_row);
        if engine_scroll != page_row {
            Some(page_row)
        } else {
            None
        }
    }
}

/// Once the view and the engine agree, looking again changes nothing, and there is
/// nothing to tell the engine.
pub proof fn agreement_lasts(
    before: MarkdownView,
    after: MarkdownView,
    engine_scroll: usize,
    layout_changed: bool,
    height: usize,
)
    requires
        after.layout == before.layout,
        after.visual_scroll == before.scroll_after(engine_scroll, layout_changed, height),
        after.engine_scroll_seen == Some(after.page_row() as usize),
    ensures
        after.scroll_after(after.page_row() as usize, false, height) == after.visual_scroll,
{
}

/// The view never scrolls past its last screenful.
pub proof fn last_screenful_is_full(
    view: MarkdownView,
    engine_scroll: usize,
    layout_changed: bool,
    height: usize,
)
    ensures
        0 <= view.scroll_after(engine_scroll, layout_changed, height) <= monus(
            view.layout.rows@.len() as int,
            height as int,
        ),
{
    lemma_first_row_bound(view.layout, engine_scroll as int);
}

proof fn lemma_first_row_bound(layout: MarkdownLayoutCache, logical: int)
    ensures
        layout.first_row(logical) >= 0,
{
    lemma_first_at_bound(layout.rows@, logical, 0);
}

proof fn lemma_first_at_bound(rows: Seq<MarkdownVisualRow>, logical: int, from: int)
    requires
        0 <= from,
    ensures
        crate::ui::preview::markdown::first_at(rows, logical, from) >= 0,
    decreases rows.len() - from,
{
    if from < rows.len() && rows[from].logical_row < logical {
        lemma_first_at_bound(rows, logical, from + 1);
    }
}

impl MarkdownDoc {
    /// Whether the text of each row is what its spans say.
    pub open spec fn wf(self) -> bool {
        self.rows matches Some(rows) ==> forall|i: int|
            0 <= i < rows@.len() ==> (#[trigger] rows@[i]).text@ == joined(
                rows@[i].spans@,
                rows@[i].spans@.len() as int,
            )
    }

    /// How many rows the page has.
    pub fn row_total(&self) -> (r: usize)
        ensures
            r == self.row_count(),
    {
        match &self.rows {
            Some(rows) => rows.len(),
            None => self.source_lines.len(),
        }
    }

    /// The text of a row of the page.
    pub fn text_for_row(&self, i: usize) -> (r: Option<&str>)
        ensures
            r matches Some(text) ==> i < self.row_count() && text@ == self.row_text(i as int),
            r is None ==> i >= self.row_count(),
    {
        match &self.rows {
            Some(rows) => {
                if i < rows.len() {
                    Some(rows[i].text.as_str())
                } else {
                    None
                }
            },
            None => {
                if i < self.source_lines.len() {
                    Some(self.source_lines[i].as_str())
                } else {
                    None
                }
            },
        }
    }
}

/// Whether the rows on screen are those of the page.
pub open spec fn shows(layout: MarkdownLayoutCache, doc: MarkdownDoc) -> bool {
    layout.rows@ == doc.laid_out(doc.row_count(), layout.width as int)
}

/// The text of a row on screen.
pub open spec fn visible_text(doc: MarkdownDoc, row: MarkdownVisualRow) -> Seq<char> {
    slice(doc.row_text(row.logical_row as int), row.byte_start as int, row.byte_end as int)
}

/// Texts are no longer than what fits into memory.
fn measure(text: &str) -> (r: usize)
    ensures
        r == bytes_in(text@),
{
    proof {
        lemma_bytes_are_utf8(text@);
    }
    text.as_bytes().len()
}

/// A row on screen belongs to a row of the page, and can be cut out of it.
proof fn lemma_row_on_page(doc: MarkdownDoc, n: int, width: int, v: int)
    requires
        0 <= n <= doc.row_count() <= usize::MAX,
        0 <= width,
        0 <= v < doc.laid_out(n, width).len(),
    ensures
        ({
            let row = doc.laid_out(n, width)[v];
            let text = doc.row_text(row.logical_row as int);
            &&& row.logical_row < n
            &&& bytes_in(text) <= usize::MAX ==> can_cut(
                text,
                row.byte_start as int,
                row.byte_end as int,
            )
        }),
    decreases n,
{
    if n > 0 {
        let before = doc.laid_out(n - 1, width);
        let text = doc.row_text(n - 1);
        let added = visual_rows(n - 1, text, doc.row_is_prose(n - 1), width);
        assert(doc.laid_out(n, width) == before + added);
        if v < before.len() {
            lemma_row_on_page(doc, n - 1, width, v);
        } else if bytes_in(text) <= usize::MAX {
            let i = v - before.len();
            lemma_whole(text);
            if doc.row_is_prose(n - 1) {
                let rows = wrapped(text, width);
                if text.len() > 0 && width > 0 {
                    wrapping_keeps_the_text(text, width);
                }
                assert(0 <= rows[i].0 <= rows[i].1 <= text.len());
                lemma_byte_at_ends(text);
                lemma_byte_at_grows(text, 0, rows[i].0);
                lemma_byte_at_grows(text, rows[i].0, rows[i].1);
                lemma_byte_at_grows(text, rows[i].1, text.len() as int);
                lemma_char_at(text, rows[i].0);
                lemma_char_at(text, rows[i].1);
            }
        }
    }
}

/// The width of the widest of `n` rows on screen from `from` on.
pub open spec fn widest(doc: MarkdownDoc, rows: Seq<MarkdownVisualRow>, from: int, n: int) -> int
    decreases n,
{
    if n <= 0 {
        0
    } else {
        larger(
            widest(doc, rows, from, n - 1),
            text_columns(visible_text(doc, rows[from + n - 1])) as int,
        )
    }
}

/// What is settled about a frame before its rows are drawn.
#[derive(Clone, Copy, Debug, PartialEq, Eq)]
pub struct MarkdownFrame {
    /// Where the page begins on screen.
    pub origin: (u16, u16),
    pub content_height: u16,
    /// The row of the page that the engine has to scroll to.
    pub scroll_to: Option<usize>,
    /// How far the rows on screen can be scrolled sideways.
    pub max_h: usize,
}

impl MarkdownView {
    /// How many rows are on screen.
    pub open spec fn rows_on_screen(self, content_height: int) -> int {
        smaller(content_height, monus(self.layout.rows@.len() as int, self.visual_scroll as int))
    }

    /// Whether what is remembered of a page is still true of it: the page that the layout
    /// was made of is known by its id.
    pub open spec fn remembers(self, preview_id: usize, doc: MarkdownDoc, width: int) -> bool {
        &&& self.layout.wf()
        &&& self.layout.preview_id == preview_id && self.layout.width == width ==> shows(
            self.layout,
            doc,
        )
    }

    /// Settles a frame: the page is laid out for the width of `area`, the view is
    /// scrolled, and the rows that come on screen are measured. The page takes the part
    /// of `area` from row `y` on.
    pub fn begin_frame(
        &mut self,
        preview_id: usize,
        doc: &MarkdownDoc,
        area: Rect,
        y: u16,
        engine_scroll: usize,
    ) -> (r: MarkdownFrame)
        requires
            old(self).remembers(preview_id, *doc, area.width as int),
            area.y <= y <= area.y + area.height,
            area.y + area.height <= u16::MAX,
        ensures
            final(self).layout.wf(),
            shows(final(self).layout, *doc),
            final(self).layout.preview_id == preview_id,
            final(self).layout.width == area.width,
            r.origin == (area.x, y),
            r.content_height == area.y + area.height - y,
            ({
                let laid_out = MarkdownView {
                    layout: final(self).layout,
                    visual_scroll: old(self).visual_scroll,
                    engine_scroll_seen: old(self).engine_scroll_seen,
                };
                let changed = !(old(self).layout.preview_id == preview_id
                    && old(self).layout.width == area.width);
                final(self).visual_scroll == laid_out.scroll_after(
                    engine_scroll,
                    changed,
                    r.content_height as usize,
                )
            }),
            final(self).engine_scroll_seen == Some(final(self).page_row() as usize),
            r.scroll_to == (if engine_scroll == final(self).page_row() {
                None
            } else {
                Some(final(self).page_row() as usize)
            }),
            r.max_h == monus(
                widest(
                    *doc,
                    final(self).layout.rows@,
                    final(self).visual_scroll as int,
                    final(self).rows_on_screen(r.content_height as int),
                ),
                area.width as int,
            ),
            forall|i: int|
                0 <= i < r.content_height && final(self).visual_scroll + i
                    < final(self).layout.rows@.len() ==> text_columns(
                    visible_text(
                        *doc,
                        #[trigger] final(self).layout.rows@[final(self).visual_scroll + i],
                    ),
                ) <= r.max_h + area.width,
            r.max_h > 0 ==> exists|i: int|
                0 <= i < r.content_height && final(self).visual_scroll + i
                    < final(self).layout.rows@.len() && text_columns(
                    visible_text(
                        *doc,
                        #[trigger] final(self).layout.rows@[final(self).visual_scroll + i],
                    ),
                ) == r.max_h + area.width,
    {
        let content_height: u16 = area.y + area.height - y;
        let changed = self.layout.ensure(preview_id, doc, area.width as usize);
        let scroll_to = self.sync_visual_scroll(engine_scroll, changed, content_height as usize);
        let ghost rows = self.layout.rows@;
        let ghost scroll = self.visual_scroll as int;
        let count: usize = (content_height as usize).min(
            self.layout.len().saturating_sub(self.visual_scroll),
        );
        let total: usize = self.layout.len();
        let mut max_w: usize = 0;
        let mut i: usize = 0;
        while i < count
            invariant
                i <= count,
                total == rows.len(),
                rows == self.layout.rows@,
                scroll == self.visual_scroll,
                shows(self.layout, *doc),
                count <= monus(rows.len() as int, scroll),
                max_w == widest(*doc, rows, scroll, i as int),
            decreases count - i,
        {
            let row = self.layout.rows[self.visual_scroll + i];
            doc.row_total();
            proof {
                lemma_row_on_page(
                    *doc,
                    doc.row_count(),
                    self.layout.width as int,
                    scroll + i,
                );
            }
            match doc.text_for_row(row.logical_row) {
                Some(text) => {
                    measure(text);
                    let shown = slice_bytes(text, row.byte_start, row.byte_end);
                    max_w = max_w.max(text_width(shown.as_str()));
                },
                None => {},
            }
            i += 1;
        }
        proof {
            lemma_widest(*doc, rows, scroll, count as int);
            if count > 0 {
                let k = choose|k: int|
                    0 <= k < count && text_columns(
                        visible_text(*doc, #[trigger] rows[scroll + k]),
                    ) == max_w;
                assert(text_columns(visible_text(*doc, rows[scroll + k])) == max_w);
            }
        }
        MarkdownFrame {
            origin: (area.x, y),
            content_height,
            scroll_to,
            max_h: max_w.saturating_sub(area.width as usize),
        }
    }
}

/// What is marked in a row of the page: the matches of a search, the match that the
/// search is at, and the selection, as ranges of the row's bytes.
#[derive(Debug)]
pub struct RowMarks {
    pub ranges: Vec<Range<usize>>,
    pub current: Option<Range<usize>>,
    pub selection: Option<Range<usize>>,
}

/// The matches of a search on a row, and the one that the search is at if it is on it.
#[derive(Debug)]
pub struct RowMatches {
    pub ranges: Vec<Range<usize>>,
    pub current: Option<Range<usize>>,
}

/// What may be marked in a row of the preview: what the find widget has found in the
/// preview, what the in-panel search has, and the part of the selection on the row.
#[derive(Debug)]
pub struct RowSources {
    pub found: RowMatches,
    pub searched: RowMatches,
    pub selection: Option<Range<usize>>,
}

/// What is marked in a row of the preview. The find widget's matches are, while it looks
/// through the preview, and those of the in-panel search otherwise; never both.
pub fn row_marks(target: Option<FindTarget>, sources: RowSources) -> (r: RowMarks)
    ensures
        r.ranges == (if target == Some(FindTarget::FilePreview) {
            sources.found.ranges
        } else {
            sources.searched.ranges
        }),
        r.current == (if target == Some(FindTarget::FilePreview) {
            sources.found.current
        } else {
            sources.searched.current
        }),
        r.selection == sources.selection,
{
    let finds_here = match target {
        Some(target) => target == FindTarget::FilePreview,
        None => false,
    };
    let matches = if finds_here {
        sources.found
    } else {
        sources.searched
    };
    RowMarks {
        ranges: matches.ranges,
        current: matches.current,
        selection: sources.selection,
    }
}

/// A row on screen. Its marks are ranges of the bytes that are on screen.
#[derive(Debug)]
pub struct MarkdownRowPlan {
    pub y: u16,
    pub visual: MarkdownVisualRow,
    pub pieces: Vec<VisibleMarkdownSpan>,
    /// The looks of the pieces.
    pub styles: Vec<TextStyle>,
    pub ranges: Vec<Range<usize>>,
    pub current: Option<Range<usize>>,
    pub selection: Option<Range<usize>>,
    /// The colour that the row is filled up with.
    pub bg: Option<Color>,
    pub links: Vec<LinkZone>,
}

/// What a frame is drawn with: the place and width of the page, how far it is scrolled
/// sideways, the cell under the mouse, and the colours.
#[derive(Clone, Copy, Debug)]
pub struct Drawing {
    pub x: u16,
    pub width: u16,
    pub h_scroll: usize,
    pub hover: Option<(u16, u16)>,
    pub palette: Palette,
}

/// The looks of a piece: those of its span, and those of a link under the mouse where it
/// is one.
pub open spec fn piece_look(
    row: Seq<MarkdownSpan>,
    pieces: Seq<VisibleMarkdownSpan>,
    i: int,
    y: u16,
    d: Drawing,
) -> TextStyle {
    let span = row[pieces[i].span as int];
    let style = look(span, d.palette);
    if span.link is Some && lies_on(
        d.hover,
        (d.x, y),
        columns_before(pieces, i),
        columns_before(pieces, i + 1),
        d.h_scroll as int,
        d.width as int,
    ) {
        link_hover_style(style, &d.palette)
    } else {
        style
    }
}

/// The bytes of a row on screen.
pub open spec fn byte_range(row: MarkdownVisualRow) -> Range<usize> {
    Range { start: row.byte_start, end: row.byte_end }
}

/// The part of a mark that is on screen.
pub open spec fn mark_on(mark: Option<Range<usize>>, visual: Range<usize>) -> Option<
    Range<usize>,
> {
    match mark {
        Some(range) => overlap(range, visual),
        None => None,
    }
}

impl MarkdownRowPlan {
    /// Whether this is what a row on screen shows of the page.
    pub open spec fn is_for(
        self,
        doc: MarkdownDoc,
        visual: MarkdownVisualRow,
        y: int,
        d: Drawing,
        marks: RowMarks,
    ) -> bool {
        &&& self.y == y
        &&& self.visual == visual
        &&& self.ranges@ == overlaps(
            marks.ranges@,
            marks.ranges@.len() as int,
            byte_range(visual),
        )
        &&& self.current == mark_on(marks.current, byte_range(visual))
        &&& self.selection == mark_on(marks.selection, byte_range(visual))
        &&& self.styles@.len() == self.pieces@.len()
        &&& match doc.rows {
            Some(rows) => {
                let row = rows@[visual.logical_row as int].spans@;
                &&& are_parts(
                    self.pieces@,
                    parts(
                        row,
                        row.len() as int,
                        visual.byte_start as int,
                        visual.byte_end as int,
                    ),
                )
                &&& forall|i: int|
                    0 <= i < self.pieces@.len() ==> #[trigger] self.styles@[i] == piece_look(
                        row,
                        self.pieces@,
                        i,
                        y as u16,
                        d,
                    )
                &&& self.bg == backdrop(row, d.palette)
                &&& self.links@ == zones(
                    row,
                    self.pieces@,
                    self.pieces@.len() as int,
                    (d.x, y as u16),
                    d.h_scroll as int,
                    d.width as int,
                )
            },
            None => {
                &&& self.pieces@.len() == 1
                &&& self.pieces@[0].span == 0
                &&& self.pieces@[0].text@ == visible_text(doc, visual)
                &&& self.styles@[0] == TextStyle::plain().with_fg(d.palette.fg_primary)
                &&& self.bg is None
                &&& self.links@.len() == 0
            },
        }
    }
}

proof fn lemma_parts_belong(spans: Seq<MarkdownSpan>, n: int, a: int, b: int)
    ensures
        forall|i: int|
            0 <= i < parts(spans, n, a, b).len() ==> 0 <= (#[trigger] parts(spans, n, a, b)[i]).0
                < n,
    decreases n,
{
    if n > 0 {
        lemma_parts_belong(spans, n - 1, a, b);
        let before = parts(spans, n - 1, a, b);
        let all = parts(spans, n, a, b);
        assert forall|i: int| 0 <= i < all.len() implies 0 <= (#[trigger] all[i]).0 < n by {
            if i < before.len() {
                assert(all[i] == before[i]);
            }
        }
    }
}

fn mark_part(mark: &Option<Range<usize>>, visual: &Range<usize>) -> (r: Option<Range<usize>>)
    ensures
        r == mark_on(*mark, *visual),
{
    match mark {
        Some(range) => intersect_range(range, visual),
        None => None,
    }
}

/// The looks of the pieces of a row.
fn piece_styles(
    row: &Vec<MarkdownSpan>,
    pieces: &Vec<VisibleMarkdownSpan>,
    y: u16,
    d: &Drawing,
) -> (r: Vec<TextStyle>)
    requires
        forall|i: int| 0 <= i < pieces@.len() ==> (#[trigger] pieces@[i]).span < row@.len(),
        d.x + d.width <= u16::MAX,
    ensures
        r@.len() == pieces@.len(),
        forall|i: int|
            0 <= i < pieces@.len() ==> #[trigger] r@[i] == piece_look(row@, pieces@, i, y, *d),
{
    let mut out: Vec<TextStyle> = Vec::new();
    let mut pos: usize = 0;
    let mut i: usize = 0;
    while i < pieces.len()
        invariant
            i <= pieces@.len(),
            out@.len() == i,
            forall|i: int| 0 <= i < pieces@.len() ==> (#[trigger] pieces@[i]).span < row@.len(),
            d.x + d.width <= u16::MAX,
            pos == columns_before(pieces@, i as int),
            forall|k: int|
                0 <= k < i ==> #[trigger] out@[k] == piece_look(row@, pieces@, k, y, *d),
        decreases pieces@.len() - i,
    {
        let start: usize = pos;
        pos = pos.saturating_add(text_width(pieces[i].text.as_str()));
        assert(pos == columns_before(pieces@, i + 1));
        let span = &row[pieces[i].span];
        let mut style = span_style(span, &d.palette);
        if span.link.is_some() && span_hovered(
            d.hover,
            (d.x, y),
            start,
            pos,
            d.h_scroll,
            d.width,
        ) {
            style = link_hover_style(style, &d.palette);
        }
        out.push(style);
        i += 1;
    }
    out
}

impl MarkdownView {
    /// The rows on screen, top to bottom. `marks` are those of the rows of the page that
    /// come on screen, in the same order.
    pub fn plan_rows(
        &self,
        doc: &MarkdownDoc,
        frame: &MarkdownFrame,
        d: &Drawing,
        marks: &Vec<RowMarks>,
    ) -> (r: Vec<MarkdownRowPlan>)
        requires
            shows(self.layout, *doc),
            doc.wf(),
            d.x + d.width <= u16::MAX,
            frame.origin.1 + frame.content_height <= u16::MAX,
            marks@.len() >= self.rows_on_screen(frame.content_height as int),
        ensures
            r@.len() == self.rows_on_screen(frame.content_height as int),
            forall|i: int|
                0 <= i < r@.len() ==> (#[trigger] r@[i]).is_for(
                    *doc,
                    self.layout.rows@[self.visual_scroll + i],
                    frame.origin.1 + i,
                    *d,
                    marks@[i],
                ),
    {
        let total: usize = self.layout.len();
        let count: usize = (frame.content_height as usize).min(
            total.saturating_sub(self.visual_scroll),
        );
        let mut out: Vec<MarkdownRowPlan> = Vec::new();
        let mut i: usize = 0;
        while i < count
            invariant
                i <= count <= monus(total as int, self.visual_scroll as int),
                count <= frame.content_height,
                count <= marks@.len(),
                total == self.layout.rows@.len(),
                shows(self.layout, *doc),
                doc.wf(),
                d.x + d.width <= u16::MAX,
                frame.origin.1 + frame.content_height <= u16::MAX,
                out@.len() == i,
                forall|k: int|
                    0 <= k < i ==> (#[trigger] out@[k]).is_for(
                        *doc,
                        self.layout.rows@[self.visual_scroll + k],
                        frame.origin.1 + k,
                        *d,
                        marks@[k],
                    ),
            decreases count - i,
        {
            let visual = self.layout.rows[self.visual_scroll + i];
            let y: u16 = frame.origin.1 + i as u16;
            doc.row_total();
            proof {
                lemma_row_on_page(
                    *doc,
                    doc.row_count(),
                    self.layout.width as int,
                    self.visual_scroll + i,
                );
            }
            let range = Range { start: visual.byte_start, end: visual.byte_end };
            let ranges = intersect_ranges(&marks[i].ranges, &range);
            let current = mark_part(&marks[i].current, &range);
            let selection = mark_part(&marks[i].selection, &range);
            let plan = match &doc.rows {
                Some(rows) => {
                    let row = &rows[visual.logical_row];
                    measure(row.text.as_str());
                    assert(rows@[visual.logical_row as int].text@ == joined(
                        row.spans@,
                        row.spans@.len() as int,
                    ));
                    let pieces = slice_row_spans(&row.spans, &range);
                    proof {
                        lemma_parts_belong(
                            row.spans@,
                            row.spans@.len() as int,
                            range.start as int,
                            range.end as int,
                        );
                        assert forall|k: int| 0 <= k < pieces@.len() implies (
                        #[trigger] pieces@[k]).span < row.spans@.len() by {
                            assert(parts(
                                row.spans@,
                                row.spans@.len() as int,
                                range.start as int,
                                range.end as int,
                            )[k].0 < row.spans@.len());
                        }
                    }
                    let styles = piece_styles(&row.spans, &pieces, y, d);
                    let links = register_links(
                        &row.spans,
                        &pieces,
                        (d.x, y),
                        d.h_scroll,
                        d.width,
                    );
                    let bg = row_bg(&row.spans, &d.palette);
                    MarkdownRowPlan {
                        y,
                        visual,
                        pieces,
                        styles,
                        ranges,
                        current,
                        selection,
                        bg,
                        links,
                    }
                },
                None => {
                    let text = doc.source_lines[visual.logical_row].as_str();
                    measure(text);
                    let shown = slice_bytes(text, visual.byte_start, visual.byte_end);
                    let pieces: Vec<VisibleMarkdownSpan> = vec![
                        VisibleMarkdownSpan { span: 0, text: shown },
                    ];
                    let styles: Vec<TextStyle> = vec![
                        TextStyle::plain().with_fg(d.palette.fg_primary),
                    ];
                    MarkdownRowPlan {
                        y,
                        visual,
                        pieces,
                        styles,
                        ranges,
                        current,
                        selection,
                        bg: None,
                        links: Vec::new(),
                    }
                },
            };
            assert(plan.is_for(
                *doc,
                self.layout.rows@[self.visual_scroll + i],
                frame.origin.1 + i,
                *d,
                marks@[i as int],
            ));
            out.push(plan);
            i += 1;
        }
        out
    }
}

proof fn lemma_widest(doc: MarkdownDoc, rows: Seq<MarkdownVisualRow>, from: int, n: int)
    requires
        0 <= n,
    ensures
        forall|i: int|
            0 <= i < n ==> text_columns(visible_text(doc, #[trigger] rows[from + i])) <= widest(
                doc,
                rows,
                from,
                n,
            ),
        n > 0 ==> exists|i: int|
            0 <= i < n && text_columns(visible_text(doc, #[trigger] rows[from + i])) == widest(
                doc,
                rows,
                from,
                n,
            ),
    decreases n,
{
    if n > 0 {
        lemma_widest(doc, rows, from, n - 1);
        let last = text_columns(visible_text(doc, rows[from + (n - 1)])) as int;
        let before = widest(doc, rows, from, n - 1);
        if n == 1 || last >= before {
            assert(text_columns(visible_text(doc, rows[from + (n - 1)])) == widest(
                doc,
                rows,
                from,
                n,
            ));
        } else {
            let i = choose|i: int|
                0 <= i < n - 1 && text_columns(visible_text(doc, #[trigger] rows[from + i]))
                    == before;
            assert(text_columns(visible_text(doc, rows[from + i])) == widest(doc, rows, from, n));
        }
    }
}

/// No row on screen is wider than the width that limits sideways scrolling, and one of them is
/// as wide.
pub proof fn the_widest_row_limits_panning(
    doc: MarkdownDoc,
    rows: Seq<MarkdownVisualRow>,
    scroll: int,
    shown: int,
)
    requires
        0 <= shown,
    ensures
        ({
            let width = widest(doc, rows, scroll, shown);
            &&& forall|i: int|
                0 <= i < shown ==> text_columns(visible_text(doc, #[trigger] rows[scroll + i]))
                    <= width
            &&& shown > 0 ==> exists|i: int|
                0 <= i < shown && text_columns(visible_text(doc, #[trigger] rows[scroll + i]))
                    == width
            &&& shown == 0 ==> width == 0
        }),
{
    lemma_widest(doc, rows, scroll, shown);
}

/// A view that the engine has scrolled shows first what the engine scrolled to: every row above
/// it belongs to an earlier row of the page, unless the last screenful is reached. One that the
/// engine has not scrolled stays where it is, as far as the page goes.
pub proof fn views_follow_the_engine(
    view: MarkdownView,
    engine_scroll: usize,
    layout_changed: bool,
    height: usize,
)
    requires
        view.layout.rows@.len() <= usize::MAX,
        height > 0,
    ensures
        ({
            let rows = view.layout.rows@;
            let at = view.scroll_after(engine_scroll, layout_changed, height);
            let last = if rows.len() > height {
                rows.len() - height
            } else {
                0
            };
            let follows = layout_changed || view.engine_scroll_seen != Some(engine_scroll);
            &&& follows && engine_scroll == usize::MAX ==> at == last
            &&& follows && engine_scroll != usize::MAX && at < last ==> rows[at].logical_row
                >= engine_scroll
            &&& follows && engine_scroll != usize::MAX ==> forall|k: int|
                0 <= k < at ==> (#[trigger] rows[k]).logical_row < engine_scroll
            &&& !follows && view.visual_scroll <= last ==> at == view.visual_scroll
            &&& !follows && view.visual_scroll > last ==> at == last
            &&& 0 <= at <= last
        }),
{
    crate::ui::preview::markdown::lemma_first_at_is_first(
        view.layout.rows@,
        engine_scroll as int,
        0,
    );
}

/// A link under the mouse looks as such, and everything else as the page says.
pub proof fn links_light_up_under_the_mouse(
    row: Seq<MarkdownSpan>,
    pieces: Seq<VisibleMarkdownSpan>,
    i: int,
    y: u16,
    d: Drawing,
)
    ensures
        ({
            let span = row[pieces[i].span as int];
            let style = piece_look(row, pieces, i, y, d);
            let over = d.hover matches Some((col, at)) && at == y && d.x <= col < d.x + d.width
                && columns_before(pieces, i) <= col - d.x + d.h_scroll < columns_before(
                pieces,
                i + 1,
            );
            &&& span.link is Some && over ==> style == link_hover_style(
                look(span, d.palette),
                &d.palette,
            )
            &&& span.link is None || d.hover is None ==> style == look(span, d.palette)
            &&& (d.hover matches Some((_, at)) && at != y) ==> style == look(span, d.palette)
        }),
{
}

/// The rows from the first one on come on screen, as many as there are and there is room for;
/// the page is where the first of them is.
pub proof fn screens_begin_at_the_scroll(view: MarkdownView, height: int)
    requires
        0 <= height,
    ensures
        ({
            let rows = view.layout.rows@;
            &&& view.visual_scroll + height <= rows.len() ==> view.rows_on_screen(height) == height
            &&& view.visual_scroll + height > rows.len() >= view.visual_scroll
                ==> view.visual_scroll + view.rows_on_screen(height) == rows.len()
            &&& view.visual_scroll < rows.len() ==> view.page_row()
                == rows[view.visual_scroll as int].logical_row
            &&& view.visual_scroll >= rows.len() ==> view.page_row() == 0
        }),
{
}

/// A mark on a row of the page shows on the rows of the screen that it reaches into, and
/// nowhere where there is none.
pub proof fn marks_show_where_they_reach(mark: Range<usize>, visual: Range<usize>)
    ensures
        mark_on(None, visual) is None,
        mark_on(Some(mark), visual) is Some <==> mark.start < visual.end && visual.start < mark.end
            && mark.start < mark.end && visual.start < visual.end,
        mark_on(Some(mark), visual) == overlap(mark, visual),
{
}

} // verus!
