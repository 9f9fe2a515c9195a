//! Text selections in the preview, in a diff and in a commit's details.

use crate::engine::{DiffLayout, DiffSide};
use crate::layout::{larger, monus, smaller};
use crate::time::{nanos_since, Duration, Timestamp};
use vstd::prelude::*;

verus! {

/// Clicks closer together than this many milliseconds make a double click.
pub const DOUBLE_CLICK_MILLIS: u64 = 400;

/// A selection of text. Each end is a row and a byte in it.
#[derive(Clone, Copy, Debug, PartialEq, Eq)]
pub struct PreviewSelection {
    pub anchor: (usize, usize),
    pub active: (usize, usize),
    pub dragging: bool,
}

impl PreviewSelection {
    /// The empty selection that a press starts.
    #[verifier::allow_in_spec]
    pub fn new(at: (usize, usize)) -> PreviewSelection
        returns
            (PreviewSelection { anchor: at, active: at, dragging: true }),
    {
        PreviewSelection { anchor: at, active: at, dragging: true }
    }

    /// Whether nothing is selected.
    #[verifier::allow_in_spec]
    pub fn is_empty(&self) -> bool
        returns
            self.anchor.0 == self.active.0 && self.anchor.1 == self.active.1,
    {
        self.anchor.0 == self.active.0 && self.anchor.1 == self.active.1
    }
}

/// A selection of text in one half of a diff.
#[derive(Clone, Copy, Debug, PartialEq, Eq)]
pub struct DiffSelection {
    pub sel: PreviewSelection,
    pub side: DiffSide,
}

/// The diff that was drawn last, as far as the mouse is concerned.
#[derive(Clone, Copy, Debug, PartialEq, Eq, Structural)]
pub struct DiffHit {
    pub row_count: usize,
    pub layout: DiffLayout,
    pub scroll: usize,
    pub content_y: u16,
    /// The column of the divider.
    pub right_start_x: u16,
}

/// The identifier under the cursor while Control is held over a diff.
#[derive(Clone, Copy, Debug, PartialEq, Eq, Structural)]
pub struct DiffHover {
    pub row: usize,
    pub start: usize,
    pub end: usize,
    pub side: DiffSide,
}

/// A click, and how many there have been at its place.
#[derive(Clone, Copy, Debug, PartialEq, Eq, Structural)]
pub struct ClickState {
    pub at: Timestamp,
    pub column: u16,
    pub row: u16,
    pub count: u8,
}

/// A click.
#[derive(Clone, Copy, Debug, PartialEq, Eq, Structural)]
pub struct LastClick {
    pub at: Timestamp,
    pub column: u16,
    pub row: u16,
}

/// Whether a click at this cell and time follows the one before it as a double
/// click.
pub open spec fn follows(at: Timestamp, column: u16, row: u16, now: Timestamp, c: u16, r: u16) -> bool {
    column == c && row == r && nanos_since(now, at) < crate::time::millis(
        DOUBLE_CLICK_MILLIS as int,
    )
}

/// Whether the second of two clicks makes a double click.
pub open spec fn is_double_spec(last: Option<LastClick>, now: Timestamp, c: u16, r: u16) -> bool {
    match last {
        Some(click) => follows(click.at, click.column, click.row, now, c, r),
        None => false,
    }
}

/// Whether a click at this cell makes a double click of the last one.
pub fn is_double_click(last: Option<LastClick>, now: Timestamp, column: u16, row: u16) -> (r: bool)
    ensures
        r == is_double_spec(last, now, column, row),
{
    match last {
        Some(click) => click.column == column && click.row == row && now.duration_since(
            click.at,
        ).nanos < Duration::from_millis(DOUBLE_CLICK_MILLIS).nanos,
        None => false,
    }
}

/// What is remembered of a click: nothing after a double click, so that a third one
/// starts over.
pub open spec fn remembered(is_double: bool, now: Timestamp, column: u16, row: u16) -> Option<
    LastClick,
> {
    if is_double {
        None
    } else {
        Some(LastClick { at: now, column, row })
    }
}

pub fn remember_click(is_double: bool, now: Timestamp, column: u16, row: u16) -> (r: Option<
    LastClick,
>)
    ensures
        r == remembered(is_double, now, column, row),
{
    if is_double {
        None
    } else {
        Some(LastClick { at: now, column, row })
    }
}

/// The number of the click: one more than the last at the same cell in time, up to
/// three, and one otherwise.
pub open spec fn click_number(last: Option<ClickState>, now: Timestamp, c: u16, r: u16) -> u8 {
    match last {
        Some(click) if follows(click.at, click.column, click.row, now, c, r) =>
            if click.count < 3 {
                (click.count + 1) as u8
            } else {
                3
            },
        _ => 1,
    }
}

/// The number of the click.
pub fn count_click(last: Option<ClickState>, now: Timestamp, column: u16, row: u16) -> (r: u8)
    ensures
        r == click_number(last, now, column, row),
{
    match last {
        Some(click) => {
            if click.column == column && click.row == row && now.duration_since(click.at).nanos
                < Duration::from_millis(DOUBLE_CLICK_MILLIS).nanos {
                if click.count < 3 {
                    click.count + 1
                } else {
                    3
                }
            } else {
                1
            }
        },
        None => 1,
    }
}

/// What is under the cursor in a panel of text: the place, the word around it and
/// the length of its row.
#[derive(Clone, Copy, Debug, PartialEq, Eq, Structural)]
pub struct TextPick {
    pub row: usize,
    pub byte: usize,
    pub word_start: usize,
    pub word_end: usize,
    pub row_len: usize,
}

/// The selection that the n-th click in a row starts: a caret, the word, the row.
pub open spec fn started_selection(click: u8, pick: TextPick) -> PreviewSelection {
    if click == 2 {
        PreviewSelection {
            anchor: (pick.row, pick.word_start),
            active: (pick.row, pick.word_end),
            dragging: true,
        }
    } else if click == 3 {
        PreviewSelection {
            anchor: (pick.row, 0),
            active: (pick.row, pick.row_len),
            dragging: true,
        }
    } else {
        PreviewSelection::new((pick.row, pick.byte))
    }
}

pub fn start_selection(click: u8, pick: TextPick) -> (r: PreviewSelection)
    ensures
        r == started_selection(click, pick),
{
    match click {
        2 => PreviewSelection {
            anchor: (pick.row, pick.word_start),
            active: (pick.row, pick.word_end),
            dragging: true,
        },
        3 => PreviewSelection {
            anchor: (pick.row, 0),
            active: (pick.row, pick.row_len),
            dragging: true,
        },
        _ => PreviewSelection::new((pick.row, pick.byte)),
    }
}

/// `col`, moved into the half of the diff that the selection began in.
pub open spec fn clamped_col(hit: DiffHit, col: int, side: DiffSide) -> int {
    match (hit.layout, side) {
        (DiffLayout::SideBySide, DiffSide::SbsLeft) => smaller(col, monus(hit.right_start_x as int, 1)),
        (DiffLayout::SideBySide, DiffSide::SbsRight) => larger(col, hit.right_start_x as int),
        _ => col,
    }
}

/// Moves `col` into the half of the diff that the selection began in, so that a drag
/// across the divider stays on its side. In a unified diff there is nothing to do.
pub fn clamp_col_to_side(hit: &DiffHit, col: u16, side: DiffSide) -> (r: u16)
    ensures
        r == clamped_col(*hit, col as int, side),
{
    match (hit.layout, side) {
        (DiffLayout::Unified, _) => col,
        (DiffLayout::SideBySide, DiffSide::Unified) => col,
        (DiffLayout::SideBySide, DiffSide::SbsLeft) => col.min(hit.right_start_x.saturating_sub(1)),
        (DiffLayout::SideBySide, DiffSide::SbsRight) => col.max(hit.right_start_x),
    }
}

/// The row and column of the text under a cell, in a panel whose text starts at
/// `origin` and is scrolled by `scroll` rows and `h_scroll` columns. Cells before the
/// text belong to its first row and column, and rows past its end to the last one.
pub open spec fn text_cell(
    scroll: int,
    h_scroll: int,
    row_count: int,
    origin: (u16, u16),
    col: int,
    row: int,
) -> (int, int) {
    (
        smaller(scroll + monus(row, origin.1 as int), row_count - 1),
        monus(col, origin.0 as int) + h_scroll,
    )
}

/// The row and column of the text under a cell, or nothing where there is no text.
pub fn mouse_to_text_cell(
    scroll: usize,
    h_scroll: usize,
    row_count: usize,
    origin: (u16, u16),
    col: u16,
    row: u16,
) -> (r: Option<(usize, usize)>)
    requires
        scroll + u16::MAX <= usize::MAX,
        h_scroll + u16::MAX <= usize::MAX,
    ensures
        match r {
            Some(cell) => row_count > 0 && (cell.0 as int, cell.1 as int) == text_cell(
                scroll as int,
                h_scroll as int,
                row_count as int,
                origin,
                col as int,
                row as int,
            ),
            None => row_count == 0,
        },
{
    if row_count == 0 {
        return None;
    }
    let visible_row: usize = row.saturating_sub(origin.1) as usize;
    let line: usize = (scroll + visible_row).min(row_count - 1);
    let visible_col: usize = col.saturating_sub(origin.0) as usize + h_scroll;
    Some((line, visible_col))
}

/// A drag that began in one half of a diff never selects in the other: a column on
/// the left stays before the divider, one on the right at or after it.
pub proof fn drags_stay_on_their_side(hit: DiffHit, col: int)
    requires
        hit.layout == DiffLayout::SideBySide,
        hit.right_start_x > 0,
        0 <= col,
    ensures
        clamped_col(hit, col, DiffSide::SbsLeft) < hit.right_start_x,
        clamped_col(hit, col, DiffSide::SbsRight) >= hit.right_start_x,
{
}

/// A column already on the selection's side is left alone.
pub proof fn clamping_leaves_own_side_alone(hit: DiffHit, col: int, side: DiffSide)
    ensures
        clamped_col(hit, clamped_col(hit, col, side), side) == clamped_col(hit, col, side),
        side == DiffSide::SbsLeft && col < hit.right_start_x ==> clamped_col(hit, col, side) == col,
        side == DiffSide::SbsRight && col >= hit.right_start_x ==> clamped_col(hit, col, side)
            == col,
        hit.layout == DiffLayout::Unified ==> clamped_col(hit, col, side) == col,
{
}

/// However often a cell is clicked, a click counts as the first, second or third.
pub proof fn clicks_count_to_three(last: Option<ClickState>, now: Timestamp, c: u16, r: u16)
    ensures
        1 <= click_number(last, now, c, r) <= 3,
{
}

/// A double click is followed by no other: the third click in a row is single again.
pub proof fn third_click_is_single(
    first: Timestamp,
    second: Timestamp,
    third: Timestamp,
    c: u16,
    r: u16,
)
    requires
        is_double_spec(Some(LastClick { at: first, column: c, row: r }), second, c, r),
    ensures
        !is_double_spec(remembered(true, second, c, r), third, c, r),
{
}

/// The text under a cell is as many rows below the first row on screen as the cell is below the
/// text's upper edge, and as many columns on; below the last row it is the last row.
pub proof fn cells_show_the_text(
    scroll: int,
    h_scroll: int,
    row_count: int,
    origin: (u16, u16),
    col: int,
    row: int,
)
    requires
        0 <= scroll,
        0 < row_count,
        origin.0 <= col,
        origin.1 <= row,
    ensures
        ({
            let at = text_cell(scroll, h_scroll, row_count, origin, col, row);
            &&& scroll + (row - origin.1) < row_count ==> at.0 == scroll + (row - origin.1)
            &&& scroll + (row - origin.1) >= row_count ==> at.0 == row_count - 1
            &&& at.1 == h_scroll + (col - origin.0)
        }),
{
}

} // verus!
