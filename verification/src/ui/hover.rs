//! Tinting the row under the mouse.

use crate::app::TuiApp;
use crate::geometry::Rect;
use crate::ui::style::{Color, TextStyle};
use vstd::prelude::*;

verus! {

/// Whether the mouse is over row `y` of the area.
pub open spec fn is_under_mouse(app: TuiApp, area: Rect, y: int) -> bool {
    &&& app.hover_row matches Some(row) && row == y
    &&& app.hover_col matches Some(col) && area.x <= col < area.x + area.width
}

/// Whether the mouse is over row `y` of the area.
pub fn is_hover(app: &TuiApp, area: Rect, y: u16) -> (r: bool)
    ensures
        r == is_under_mouse(*app, area, y as int),
{
    match (app.hover_row, app.hover_col) {
        (Some(row), Some(col)) => row == y && col >= area.x && (col as u32) < area.x as u32
            + area.width as u32,
        _ => false,
    }
}

/// Tints text under the mouse, except where it has a colour behind it already.
#[verifier::allow_in_spec]
pub fn apply(style: TextStyle, hover: bool, hover_bg: Color) -> TextStyle
    returns
        (if hover && style.bg is None {
            style.with_bg(hover_bg)
        } else {
            style
        }),
{
    if hover && style.bg.is_none() {
        style.with_bg(hover_bg)
    } else {
        style
    }
}

/// A colour behind the text keeps its place under the mouse, and tinting twice is tinting
/// once.
pub proof fn tints_never_cover(style: TextStyle, hover: bool, tint: Color, other: Color)
    ensures
        style.bg is Some ==> apply(style, hover, tint) == style,
        apply(apply(style, true, tint), hover, other) == apply(style, true, tint),
        !hover ==> apply(style, hover, tint) == style,
{
}

/// A row is under the mouse where the mouse is on the row and between the sides of the area.
pub proof fn the_mouse_is_over_one_row(app: TuiApp, area: Rect, col: u16, row: u16, y: int)
    requires
        app.hover_row == Some(row),
        app.hover_col == Some(col),
    ensures
        is_under_mouse(app, area, y) <==> y == row && area.x <= col && col - area.x < area.width,
{
}

/// Text under the mouse that has no colour behind it gets the tint there, and keeps the rest of
/// its looks.
pub proof fn the_mouse_tints_what_is_bare(style: TextStyle, tint: Color)
    requires
        style.bg is None,
    ensures
        apply(style, true, tint) == (TextStyle { bg: Some(tint), ..style }),
{
}

} // verus!
