//! Placing popups on the screen.

use crate::geometry::Rect;
use crate::layout::monus;
use vstd::prelude::*;

verus! {

/// A rectangle of `w` by `h` cells in the middle of the screen, or at its top left where
/// it does not fit.
pub open spec fn centred_on(screen: Rect, w: u16, h: u16) -> Rect {
    Rect {
        x: (screen.x + monus(screen.width as int, w as int) / 2) as u16,
        y: (screen.y + monus(screen.height as int, h as int) / 2) as u16,
        width: w,
        height: h,
    }
}

/// A rectangle of `w` by `h` cells in the middle of the screen.
pub fn center_rect(screen: Rect, w: u16, h: u16) -> (r: Rect)
    requires
        screen.x + screen.width <= u16::MAX,
        screen.y + screen.height <= u16::MAX,
    ensures
        r == centred_on(screen, w, h),
{
    let x: u16 = screen.x + screen.width.saturating_sub(w) / 2;
    let y: u16 = screen.y + screen.height.saturating_sub(h) / 2;
    Rect::new(x, y, w, h)
}

/// A popup that fits lies inside the screen, with the same room on both sides, give or
/// take a cell; one that does not fit begins at the top left.
pub proof fn popups_are_in_the_middle(screen: Rect, w: u16, h: u16)
    requires
        screen.x + screen.width <= u16::MAX,
        screen.y + screen.height <= u16::MAX,
    ensures
        w <= screen.width && h <= screen.height ==> {
            let popup = centred_on(screen, w, h);
            let left = popup.x - screen.x;
            let right = screen.x + screen.width - (popup.x + popup.width);
            let above = popup.y - screen.y;
            let below = screen.y + screen.height - (popup.y + popup.height);
            &&& popup.within(screen)
            &&& 0 <= right - left <= 1
            &&& 0 <= below - above <= 1
        },
        w > screen.width ==> centred_on(screen, w, h).x == screen.x,
        h > screen.height ==> centred_on(screen, w, h).y == screen.y,
{
}

} // verus!
