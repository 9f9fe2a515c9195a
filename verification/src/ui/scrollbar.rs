//! Scrollbars.

use crate::layout::{larger, smaller};
use std::ops::Range;
use vstd::prelude::*;

verus! {

/// How long the thumb is: the share of the rows that is on screen, at least one cell and
/// at most all of them.
pub open spec fn thumb_len(total: int, visible: int) -> int {
    smaller(larger(visible * visible / total, 1), visible)
}

/// Where the thumb begins.
pub open spec fn thumb_start(total: int, visible: int, scroll: int) -> int {
    smaller(scroll, total - visible) * (visible - thumb_len(total, visible)) / (total - visible)
}

/// Whether there is anything to scroll.
pub open spec fn scrolls(total: int, visible: int) -> bool {
    visible > 0 && total > visible
}

/// The cells of the thumb, out of `visible_rows`; none where everything is on screen.
pub fn scrollbar_thumb(total_rows: usize, visible_rows: usize, scroll: usize) -> (r: Option<
    Range<usize>,
>)
    ensures
        match r {
            Some(thumb) => {
                &&& scrolls(total_rows as int, visible_rows as int)
                &&& thumb.start == thumb_start(
                    total_rows as int,
                    visible_rows as int,
                    scroll as int,
                )
                &&& thumb.end == thumb.start + thumb_len(total_rows as int, visible_rows as int)
            },
            None => !scrolls(total_rows as int, visible_rows as int),
        },
{
    if visible_rows == 0 || total_rows <= visible_rows {
        return None;
    }
    let total: u128 = total_rows as u128;
    let visible: u128 = visible_rows as u128;
    assert(visible * visible <= 0xffff_ffff_ffff_ffffu128 * 0xffff_ffff_ffff_ffffu128)
        by (nonlinear_arith)
        requires
            0 <= visible <= 0xffff_ffff_ffff_ffffu128,
    ;
    let len: u128 = (visible * visible / total).max(1).min(visible);
    let track: u128 = visible - len;
    let max_scroll: u128 = total - visible;
    let at: u128 = (scroll as u128).min(max_scroll);
    assert(at * track <= 0xffff_ffff_ffff_ffffu128 * 0xffff_ffff_ffff_ffffu128)
        by (nonlinear_arith)
        requires
            0 <= at <= 0xffff_ffff_ffff_ffffu128,
            0 <= track <= 0xffff_ffff_ffff_ffffu128,
    ;
    let start: u128 = at * track / max_scroll;
    proof {
        thumb_stays_on_the_track(total_rows as int, visible_rows as int, scroll as int);
    }
    Some(Range { start: start as usize, end: start as usize + len as usize })
}

/// The thumb is never empty and never leaves the track; it is at the top when nothing is
/// scrolled, and at the bottom when everything is.
pub proof fn thumb_stays_on_the_track(total: int, visible: int, scroll: int)
    requires
        scrolls(total, visible),
        0 <= scroll,
    ensures
        1 <= thumb_len(total, visible) <= visible,
        0 <= thumb_start(total, visible, scroll),
        thumb_start(total, visible, scroll) + thumb_len(total, visible) <= visible,
        thumb_start(total, visible, 0) == 0,
        scroll >= total - visible ==> thumb_start(total, visible, scroll) + thumb_len(
            total,
            visible,
        ) == visible,
{
    let len = thumb_len(total, visible);
    let track = visible - len;
    let max = total - visible;
    let at = smaller(scroll, max);
    assert(0 <= at * track / max <= track) by (nonlinear_arith)
        requires
            0 <= at <= max,
            0 < max,
            0 <= track,
    ;
    assert(0 * track / max == 0) by (nonlinear_arith)
        requires
            0 < max,
    ;
    if scroll >= max {
        assert(max * track / max == track) by (nonlinear_arith)
            requires
                0 < max,
        ;
    }
}

/// Scrolling down never moves the thumb up.
pub proof fn thumb_follows_the_scroll(total: int, visible: int, before: int, after: int)
    requires
        scrolls(total, visible),
        0 <= before <= after,
    ensures
        thumb_start(total, visible, before) <= thumb_start(total, visible, after),
{
    thumb_stays_on_the_track(total, visible, before);
    let track = visible - thumb_len(total, visible);
    let max = total - visible;
    let a = smaller(before, max);
    let b = smaller(after, max);
    assert(a * track / max <= b * track / max) by (nonlinear_arith)
        requires
            0 <= a <= b,
            0 < max,
            0 <= track,
    ;
}

/// The thumb takes the share of the track that is on screen, rounded down, and one cell where
/// that is less; it stands as far down its way as the view is scrolled.
pub proof fn thumbs_show_the_share(total: int, visible: int, scroll: int)
    requires
        scrolls(total, visible),
        0 <= scroll,
    ensures
        ({
            let len = thumb_len(total, visible);
            let start = thumb_start(total, visible, scroll);
            let way = visible - len;
            let most = total - visible;
            &&& len > 1 ==> len * total <= visible * visible < (len + 1) * total
            &&& len == 1 ==> visible * visible < 2 * total
            &&& scroll <= most ==> start * most <= scroll * way < (start + 1) * most
        }),
{
    let len = thumb_len(total, visible);
    let share = visible * visible / total;
    assert(share * total <= visible * visible < (share + 1) * total && share < visible)
        by (nonlinear_arith)
        requires
            share == visible * visible / total,
            0 < visible < total,
    ;
    if len == 1 {
        assert((share + 1) * total <= 2 * total) by (nonlinear_arith)
            requires
                share <= 1,
                0 < total,
        ;
    }
    let way = visible - len;
    let most = total - visible;
    if scroll <= most {
        let start = scroll * way / most;
        assert(start * most <= scroll * way < (start + 1) * most) by (nonlinear_arith)
            requires
                start == scroll * way / most,
                0 < most,
        ;
    }
}

} // verus!
