//! Rectangles of terminal cells.

use vstd::prelude::*;

verus! {

/// A rectangle of terminal cells.
#[derive(Clone, Copy, Debug, PartialEq, Eq, Structural)]
pub struct Rect {
    pub x: u16,
    pub y: u16,
    pub width: u16,
    pub height: u16,
}

impl Rect {
    #[verifier::allow_in_spec]
    pub fn new(x: u16, y: u16, width: u16, height: u16) -> Rect
        returns
            (Rect { x, y, width, height }),
    {
        Rect { x, y, width, height }
    }

    /// Whether the cell at `col`, `row` lies inside.
    pub open spec fn holds(self, col: int, row: int) -> bool {
        &&& self.x <= col < self.x + self.width
        &&& self.y <= row < self.y + self.height
    }

    /// Whether every cell of this rectangle lies inside `outer`.
    pub open spec fn within(self, outer: Rect) -> bool {
        &&& outer.x <= self.x
        &&& outer.y <= self.y
        &&& self.x + self.width <= outer.x + outer.width
        &&& self.y + self.height <= outer.y + outer.height
    }
}

/// Whether the cell at `col`, `row` lies inside `rect`.
pub fn point_in_rect(rect: Rect, col: u16, row: u16) -> (r: bool)
    ensures
        r == rect.holds(col as int, row as int),
{
    let right: u32 = rect.x as u32 + rect.width as u32;
    let bottom: u32 = rect.y as u32 + rect.height as u32;
    col >= rect.x && (col as u32) < right && row >= rect.y && (row as u32) < bottom
}

/// A rectangle holds the cells from its corner on, as many columns and rows as it is wide and
/// high, and no others.
pub proof fn rectangles_hold_their_cells(rect: Rect, i: int, j: int)
    ensures
        rect.holds(rect.x + i, rect.y + j) <==> 0 <= i < rect.width && 0 <= j < rect.height,
{
}

/// What lies inside another rectangle holds no cell that the other does not.
pub proof fn inner_cells_are_outer_cells(inner: Rect, outer: Rect, col: int, row: int)
    requires
        inner.within(outer),
        inner.holds(col, row),
    ensures
        outer.holds(col, row),
{
}

} // verus!
