//! The code around a place that a symbol leads to, in the expanded view.

use crate::geometry::Rect;
use crate::layout::{larger, monus, smaller};
use crate::text::{align_right, decimal, digit_count, lemma_digits_grow, right_aligned, same_text};
use crate::ui::nav_candidates_popup::{centred, preview_start, NavLocation};
use crate::ui::nav_compact::Scrollbar;
use crate::ui::scrollbar::{scrollbar_thumb, scrolls, thumb_len, thumb_start};
use vstd::prelude::*;

verus! {

/// What the column for the code shows.
#[derive(Clone, Copy, Debug, PartialEq, Eq, Structural)]
pub enum PreviewChoice {
    /// The code of the selected place.
    Document,
    /// That the file is no text.
    NotText,
    /// That the file is on its way.
    Loading,
    /// Why the file could not be read.
    Failure,
    /// That there is nothing to show.
    Unavailable,
}

/// What the column for the code shows, depending on whether the file that was loaded last
/// is the selected one and is text, whether one is being loaded, and whether that failed.
#[verifier::allow_in_spec]
pub fn preview_choice(is_selected: bool, is_text: bool, loading: bool, failed: bool) -> PreviewChoice
    returns
        (if is_selected && is_text {
            PreviewChoice::Document
        } else if is_selected {
            PreviewChoice::NotText
        } else if loading {
            PreviewChoice::Loading
        } else if failed {
            PreviewChoice::Failure
        } else {
            PreviewChoice::Unavailable
        }),
{
    if is_selected && is_text {
        PreviewChoice::Document
    } else if is_selected {
        PreviewChoice::NotText
    } else if loading {
        PreviewChoice::Loading
    } else if failed {
        PreviewChoice::Failure
    } else {
        PreviewChoice::Unavailable
    }
}

/// The row that a message stands in, in the middle of the area.
pub fn message_row(area: Rect) -> (r: Option<Rect>)
    requires
        area.y + area.height <= u16::MAX,
    ensures
        r == (if area.height == 0 {
            None
        } else {
            Some(Rect::new(area.x, (area.y + area.height / 2) as u16, area.width, 1))
        }),
{
    if area.height == 0 {
        None
    } else {
        Some(Rect::new(area.x, area.y + area.height / 2, area.width, 1))
    }
}

/// The place that a preview was last opened at.
#[derive(Debug)]
pub struct PreviewTarget {
    pub path: String,
    pub line: usize,
    pub byte: usize,
}

/// How far the code is scrolled.
#[derive(Debug)]
pub struct PeekPreview {
    pub target: Option<PreviewTarget>,
    pub scroll: usize,
    pub max_scroll: usize,
}

/// A line of code on screen.
#[derive(Debug)]
pub struct DocumentRow {
    pub y: u16,
    pub line: usize,
    /// The line's number, and a space.
    pub gutter: String,
    /// Whether the symbol is marked in the line.
    pub marked: bool,
}

/// The code on screen.
#[derive(Debug)]
pub struct DocumentPlan {
    pub rows: Vec<DocumentRow>,
    /// The columns that are left for the code.
    pub content_width: usize,
    /// The width of the rows, without the scrollbar.
    pub row_width: u16,
    pub scrollbar: Option<Scrollbar>,
}

/// The columns that line numbers take: the digits of the last one, and a space on each
/// side.
pub open spec fn gutter_columns(line_count: int) -> int {
    decimal(larger(line_count, 1) as nat).len() as int + 1
}

/// A line's number, at the right end of the gutter.
pub open spec fn gutter_text(line: int, line_count: int) -> Seq<char> {
    right_aligned((line + 1) as nat, gutter_columns(line_count) - 1).push(' ')
}

/// The columns that the scrollbar takes.
pub open spec fn bar_columns(line_count: int, height: int) -> int {
    if line_count > height {
        1
    } else {
        0
    }
}

/// Line numbers line up: all of them take the whole gutter.
pub proof fn line_numbers_line_up(line: int, line_count: int)
    requires
        0 <= line < line_count,
    ensures
        gutter_text(line, line_count).len() == gutter_columns(line_count),
{
    lemma_digits_grow((line + 1) as nat, line_count as nat);
}

impl PeekPreview {
    /// Whether the preview was last opened at this place.
    pub open spec fn is_at(self, path: Seq<char>, line: int, byte: int) -> bool {
        self.target matches Some(target) && target.path@ == path && target.line == line
            && target.byte == byte
    }

    /// The first line on screen. The code is scrolled to a place once, and then only as
    /// far as it goes.
    pub open spec fn scroll_at(
        self,
        path: Seq<char>,
        candidate: NavLocation,
        line_count: int,
        height: int,
    ) -> int {
        let wanted = if self.is_at(path, candidate.line as int, candidate.byte_start as int) {
            self.scroll as int
        } else {
            centred(line_count, candidate.line as int, height)
        };
        smaller(wanted, monus(line_count, height))
    }

    /// The code around a place in a file of `line_count` lines.
    pub fn plan_document(
        &mut self,
        path: &str,
        candidate: &NavLocation,
        line_count: usize,
        area: Rect,
    ) -> (r: DocumentPlan)
        requires
            area.x + area.width <= u16::MAX,
            area.y + area.height <= u16::MAX,
        ensures
            final(self).is_at(path@, candidate.line as int, candidate.byte_start as int),
            final(self).max_scroll == monus(line_count as int, area.height as int),
            final(self).scroll == old(self).scroll_at(
                path@,
                *candidate,
                line_count as int,
                area.height as int,
            ),
            r.rows@.len() == smaller(
                area.height as int,
                line_count - final(self).scroll as int,
            ),
            forall|i: int|
                0 <= i < r.rows@.len() ==> {
                    let line = final(self).scroll + i;
                    &&& (#[trigger] r.rows@[i]).y == area.y + i
                    &&& r.rows@[i].line == line
                    &&& r.rows@[i].gutter@ == gutter_text(line, line_count as int)
                    &&& r.rows@[i].marked == (line == candidate.line && candidate.byte_start
                        < candidate.byte_end)
                },
            r.content_width == monus(
                monus(area.width as int, gutter_columns(line_count as int)),
                bar_columns(line_count as int, area.height as int),
            ),
            r.row_width == monus(
                area.width as int,
                bar_columns(line_count as int, area.height as int),
            ),
            r.scrollbar is Some <==> scrolls(line_count as int, area.height as int),
            r.scrollbar matches Some(bar) ==> {
                &&& bar.x == area.x + monus(area.width as int, 1)
                &&& bar.thumb.start == thumb_start(
                    line_count as int,
                    area.height as int,
                    final(self).scroll as int,
                )
                &&& bar.thumb.end == bar.thumb.start + thumb_len(
                    line_count as int,
                    area.height as int,
                )
            },
            !old(self).is_at(path@, candidate.line as int, candidate.byte_start as int)
                && candidate.line < line_count && area.height > 0 ==> final(self).scroll
                <= candidate.line < final(self).scroll + area.height,
            old(self).is_at(path@, candidate.line as int, candidate.byte_start as int)
                && old(self).scroll + area.height <= line_count ==> final(self).scroll
                == old(self).scroll,
            area.height <= line_count ==> final(self).scroll + area.height <= line_count
                && r.rows@.len() == area.height,
    {
        let height: usize = area.height as usize;
        let same = match &self.target {
            Some(target) => same_text(target.path.as_str(), path) && target.line == candidate.line
                && target.byte == candidate.byte_start,
            None => false,
        };
        let wanted: usize = if same {
            self.scroll
        } else {
            preview_start(line_count, candidate.line, height)
        };
        if !same {
            self.target = Some(
                PreviewTarget {
                    path: path.to_string(),
                    line: candidate.line,
                    byte: candidate.byte_start,
                },
            );
        }
        let max_scroll: usize = line_count.saturating_sub(height);
        self.max_scroll = max_scroll;
        let start: usize = wanted.min(max_scroll);
        self.scroll = start;
        let digits: usize = digit_count(line_count.max(1));
        let gutter_width: usize = digits.saturating_add(1);
        let bar: usize = if line_count > height {
            1
        } else {
            0
        };
        let content_width: usize = (area.width as usize).saturating_sub(
            gutter_width,
        ).saturating_sub(bar);
        let count: usize = height.min(line_count - start);
        let mut rows: Vec<DocumentRow> = Vec::new();
        let mut i: usize = 0;
        while i < count
            invariant
                i <= count <= height == area.height,
                count <= line_count - start,
                start <= line_count,
                area.y + area.height <= u16::MAX,
                digits == gutter_columns(line_count as int) - 1,
                rows@.len() == i,
                forall|k: int|
                    0 <= k < i ==> {
                        let line = start + k;
                        &&& (#[trigger] rows@[k]).y == area.y + k
                        &&& rows@[k].line == line
                        &&& rows@[k].gutter@ == gutter_text(line, line_count as int)
                        &&& rows@[k].marked == (line == candidate.line && candidate.byte_start
                            < candidate.byte_end)
                    },
            decreases count - i,
        {
            let line: usize = start + i;
            let mut gutter = align_right(line + 1, digits);
            gutter.push(' ');
            rows.push(
                DocumentRow {
                    y: area.y + i as u16,
                    line,
                    gutter,
                    marked: line == candidate.line && candidate.byte_start < candidate.byte_end,
                },
            );
            i += 1;
        }
        let scrollbar = match scrollbar_thumb(line_count, height, start) {
            Some(thumb) => Some(Scrollbar { x: area.x + area.width.saturating_sub(1), thumb }),
            None => None,
        };
        DocumentPlan {
            rows,
            content_width,
            row_width: area.width.saturating_sub(bar as u16),
            scrollbar,
        }
    }
}

/// The code of the selected place is shown where its file is there and is text. Otherwise what
/// keeps it away is said: a file that is no text, one that is on its way, or a failure.
pub proof fn the_column_says_what_it_lacks(
    is_selected: bool,
    is_text: bool,
    loading: bool,
    failed: bool,
)
    ensures
        ({
            let choice = preview_choice(is_selected, is_text, loading, failed);
            &&& choice == PreviewChoice::Document <==> is_selected && is_text
            &&& choice == PreviewChoice::NotText <==> is_selected && !is_text
            &&& choice == PreviewChoice::Loading <==> !is_selected && loading
            &&& choice == PreviewChoice::Failure <==> !is_selected && !loading && failed
            &&& choice == PreviewChoice::Unavailable <==> !is_selected && !loading && !failed
        }),
{
}

/// A view stays where it was scrolled while the place stays the same, and goes to a new place
/// so that the place is on screen. Either way it is never scrolled past the end.
pub proof fn views_stay_at_their_place(
    preview: PeekPreview,
    path: Seq<char>,
    candidate: NavLocation,
    line_count: int,
    height: int,
)
    requires
        0 < height,
        candidate.line < line_count,
    ensures
        ({
            let first = preview.scroll_at(path, candidate, line_count, height);
            let same = preview.target matches Some(target) && target.path@ == path && target.line
                == candidate.line && target.byte == candidate.byte_start;
            &&& same && preview.scroll + height <= line_count ==> first == preview.scroll
            &&& !same ==> first <= candidate.line < first + height
            &&& first + height <= line_count || first == 0
        }),
{
}

} // verus!
