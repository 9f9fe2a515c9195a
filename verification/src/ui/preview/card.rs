//! The preview as a card: the picture of an image, or a message where there is nothing to
//! show.

use crate::geometry::Rect;
use crate::layout::{monus, smaller};
use vstd::prelude::*;

verus! {

/// Below this height an image's card has no line about it.
pub const MIN_META_HEIGHT: u16 = 5;

/// Below this height a video's card has neither a line about it nor one for its position.
pub const MIN_CHROME_HEIGHT: u16 = 8;

/// The columns that are left on both sides of the preview.
pub open spec fn padded(area: Rect) -> Rect {
    Rect {
        x: smaller(area.x + 1, u16::MAX as int) as u16,
        y: area.y,
        width: monus(area.width as int, 2) as u16,
        height: area.height,
    }
}

/// The inside of the preview panel.
pub fn preview_inner(area: Rect) -> (r: Rect)
    ensures
        r == padded(area),
{
    Rect::new(area.x.saturating_add(1), area.y, area.width.saturating_sub(2), area.height)
}

/// Where the message stands while there is no preview.
pub fn empty_note(area: Rect) -> (r: Option<Rect>)
    requires
        area.x + area.width <= u16::MAX,
        area.y + area.height <= u16::MAX,
    ensures
        r == (if area.height < 1 {
            None
        } else {
            Some(
                Rect::new(
                    (area.x + monus(area.width as int, 20) / 2) as u16,
                    (area.y + area.height / 2) as u16,
                    area.width,
                    1,
                ),
            )
        }),
{
    if area.height < 1 {
        return None;
    }
    Some(
        Rect::new(
            area.x + area.width.saturating_sub(20) / 2,
            area.y + area.height / 2,
            area.width,
            1,
        ),
    )
}

/// The parts of a card below its header.
#[derive(Clone, Copy, Debug, PartialEq, Eq, Structural)]
pub struct CardPlan {
    /// The line about the file.
    pub meta: Option<Rect>,
    /// The picture.
    pub picture: Option<Rect>,
    /// The last line.
    pub footer: Option<Rect>,
}

/// The first row of the picture: below the line about the file and an empty one, where
/// there is a line and room for both.
pub open spec fn picture_top(area: Rect, y: int, wants_meta: bool) -> int {
    let bottom = area.y + area.height;
    if wants_meta && y < bottom {
        smaller(y + 2, bottom)
    } else {
        y
    }
}

/// The parts of a card whose header ends above row `y`. The line about the file and the
/// last line are there from `min_height` rows on.
pub open spec fn card_plan(area: Rect, y: int, min_height: int, has_footer: bool) -> CardPlan {
    let bottom = area.y + area.height;
    let tall = area.height >= min_height;
    let top = picture_top(area, y, tall);
    let footer = tall && has_footer && top < bottom;
    let end = if footer {
        bottom - 1
    } else {
        bottom
    };
    let picture = if area.width >= 1 && top < end {
        Some(Rect { x: area.x, y: top as u16, width: area.width, height: (end - top) as u16 })
    } else {
        None
    };
    CardPlan {
        meta: if tall && y < bottom {
            Some(Rect { x: area.x, y: y as u16, width: area.width, height: 1 })
        } else {
            None
        },
        picture,
        footer: if footer && top < end {
            Some(Rect { x: area.x, y: (bottom - 1) as u16, width: area.width, height: 1 })
        } else {
            None
        },
    }
}

/// The parts of a card whose header ends above row `y`.
pub fn plan_card(area: Rect, y: u16, min_height: u16, has_footer: bool) -> (r: CardPlan)
    requires
        area.y <= y <= area.y + area.height,
        area.y + area.height <= u16::MAX,
    ensures
        r == card_plan(area, y as int, min_height as int, has_footer),
{
    let bottom: u16 = area.y + area.height;
    let tall = area.height >= min_height;
    let mut top: u16 = y;
    let mut meta: Option<Rect> = None;
    if tall && top < bottom {
        meta = Some(Rect::new(area.x, top, area.width, 1));
        top = top + 1;
        if top < bottom {
            top = top + 1;
        }
    }
    let footer = tall && has_footer && top < bottom;
    let end: u16 = if footer {
        bottom - 1
    } else {
        bottom
    };
    if top >= end {
        return CardPlan { meta, picture: None, footer: None };
    }
    let picture = if area.width >= 1 {
        Some(Rect::new(area.x, top, area.width, end - top))
    } else {
        None
    };
    let footer_rect = if footer {
        Some(Rect::new(area.x, bottom - 1, area.width, 1))
    } else {
        None
    };
    CardPlan { meta, picture, footer: footer_rect }
}

/// The parts of a card lie inside of it and do not overlap: the line about the file is
/// above the picture, and the last line below it.
pub proof fn cards_do_not_overlap(area: Rect, y: int, min_height: int, has_footer: bool)
    requires
        area.y <= y <= area.y + area.height,
        area.y + area.height <= u16::MAX,
    ensures
        ({
            let plan = card_plan(area, y, min_height, has_footer);
            &&& plan.meta matches Some(meta) ==> meta.within(area)
            &&& plan.picture matches Some(picture) ==> picture.within(area) && picture.height > 0
            &&& plan.footer matches Some(footer) ==> footer.within(area)
            &&& plan.meta is Some && plan.picture is Some ==> plan.meta->0.y < plan.picture->0.y
            &&& plan.picture is Some && plan.footer is Some ==> plan.picture->0.y
                + plan.picture->0.height == plan.footer->0.y
        }),
{
}

/// Where a message of `note_width` columns stands in the middle of a picture's place.
pub open spec fn note_place(area: Rect, note_width: int) -> (int, int) {
    (area.x + monus(area.width as int, note_width) / 2, area.y + area.height as int / 2)
}

/// Where a message stands in the middle of a picture's place. It is as wide as the place
/// is from there on.
pub fn note_rect(area: Rect, note_width: usize) -> (r: Rect)
    requires
        area.x + area.width <= u16::MAX,
        area.y + area.height <= u16::MAX,
    ensures
        ({
            let at = note_place(area, note_width as int);
            r == (Rect {
                x: at.0 as u16,
                y: at.1 as u16,
                width: (area.width - (at.0 - area.x)) as u16,
                height: 1,
            })
        }),
{
    let width: u16 = if note_width < area.width as usize {
        note_width as u16
    } else {
        area.width
    };
    let x: u16 = area.x + (area.width - width) / 2;
    let y: u16 = area.y + area.height / 2;
    Rect::new(x, y, area.width - (x - area.x), 1)
}

/// A card that is high enough has the line about the file right below its header, an empty
/// row, the picture, and the last line at its bottom; a lower one has the picture alone, from
/// the header to the bottom.
pub proof fn cards_are_filled(area: Rect, y: int, min_height: int, has_footer: bool)
    requires
        area.y <= y <= area.y + area.height,
        area.y + area.height <= u16::MAX,
        area.width >= 1,
    ensures
        ({
            let plan = card_plan(area, y, min_height, has_footer);
            let bottom = area.y + area.height;
            let tall = area.height >= min_height;
            &&& plan.meta is Some <==> tall && y < bottom
            &&& (plan.meta matches Some(meta) ==> meta == Rect::new(
                area.x,
                y as u16,
                area.width,
                1,
            ))
            &&& !tall && y < bottom ==> plan.picture == Some(
                Rect::new(area.x, y as u16, area.width, (bottom - y) as u16),
            ) && plan.footer is None
            &&& tall && !has_footer && y + 2 < bottom ==> plan.picture == Some(
                Rect::new(area.x, (y + 2) as u16, area.width, (bottom - y - 2) as u16),
            ) && plan.footer is None
            &&& tall && has_footer && y + 3 < bottom ==> plan.picture == Some(
                Rect::new(area.x, (y + 2) as u16, area.width, (bottom - y - 3) as u16),
            ) && plan.footer == Some(Rect::new(area.x, (bottom - 1) as u16, area.width, 1))
        }),
{
}

/// The preview leaves a column free on both sides.
pub proof fn previews_have_margins(area: Rect)
    requires
        area.width >= 2,
        area.x + area.width <= u16::MAX,
    ensures
        padded(area).x == area.x + 1,
        padded(area).x + padded(area).width == area.x + area.width - 1,
        padded(area).y == area.y && padded(area).height == area.height,
{
}

/// A message that fits has the same room on both sides, give or take a column, and stands in
/// the middle row.
pub proof fn messages_stand_in_the_middle(area: Rect, width: int)
    requires
        0 <= width <= area.width,
    ensures
        ({
            let at = note_place(area, width);
            let left = at.0 - area.x;
            let right = area.x + area.width - (at.0 + width);
            &&& 0 <= right - left <= 1
            &&& at.1 == area.y + area.height as int / 2
        }),
{
}

} // verus!
