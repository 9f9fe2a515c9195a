//! How the columns of a tab share the width of the terminal.

use crate::engine::Tab;
use vstd::prelude::*;

verus! {

/// From this width on the Graph tab can show three columns.
pub const GRAPH_THREE_COL_MIN_WIDTH: u16 = 100;

pub open spec fn smaller(a: int, b: int) -> int {
    if a < b {
        a
    } else {
        b
    }
}

pub open spec fn larger(a: int, b: int) -> int {
    if a > b {
        a
    } else {
        b
    }
}

/// `a - b`, but no less than zero.
pub open spec fn monus(a: int, b: int) -> int {
    larger(a - b, 0)
}

/// The width of the sidebar: its share of the total, at least ten columns, and at
/// most what leaves twenty for the rest.
pub open spec fn sidebar_width(total_width: int, split_percent: int) -> int {
    smaller(larger(total_width * split_percent / 100, 10), monus(total_width, 20))
}

/// The width of the sidebar.
pub fn compute_sidebar_width(total_width: u16, split_percent: u16) -> (r: u16)
    ensures
        r == sidebar_width(total_width as int, split_percent as int),
        r <= total_width,
{
    let room: u16 = total_width.saturating_sub(20);
    assert(0 <= total_width * split_percent <= 65535 * 65535) by (nonlinear_arith)
        requires
            0 <= total_width <= 65535,
            0 <= split_percent <= 65535,
    ;
    let share: u32 = (total_width as u32) * (split_percent as u32) / 100;
    let wanted: u32 = share.max(10);
    if wanted < room as u32 {
        wanted as u16
    } else {
        room
    }
}

/// The width of the diff column out of the `remainder` that the sidebar leaves: its
/// share, at least twenty columns, and at most what leaves twenty for the commit.
pub open spec fn diff_column_width(remainder: int, diff_percent: int) -> int {
    smaller(larger(remainder * diff_percent / 100, 20), monus(remainder, 20))
}

/// The widths of the Graph tab's three columns: graph, commit, diff.
pub fn compute_three_col_widths(total_width: u16, sidebar_w: u16, diff_percent: u16) -> (r: (
    u16,
    u16,
    u16,
))
    requires
        sidebar_w <= total_width,
    ensures
        r.0 == sidebar_w,
        r.2 == diff_column_width(total_width - sidebar_w, diff_percent as int),
        r.0 + r.1 + r.2 == total_width,
{
    let remainder: u16 = total_width - sidebar_w;
    let room: u16 = remainder.saturating_sub(20);
    assert(0 <= remainder * diff_percent <= 65535 * 65535) by (nonlinear_arith)
        requires
            0 <= remainder <= 65535,
            0 <= diff_percent <= 65535,
    ;
    let share: u32 = (remainder as u32) * (diff_percent as u32) / 100;
    let wanted: u32 = share.max(20);
    let diff_w: u16 = if wanted < room as u32 {
        wanted as u16
    } else {
        room
    };
    (sidebar_w, remainder - diff_w, diff_w)
}

/// Whether the Graph tab shows three columns: a file's diff is there or on its way,
/// and the terminal is wide enough.
#[verifier::allow_in_spec]
pub fn compute_uses_three_col(
    tab: Tab,
    total_width: u16,
    has_file_diff: bool,
    file_diff_loading: bool,
) -> bool
    returns
        tab == Tab::Graph && total_width >= GRAPH_THREE_COL_MIN_WIDTH && (has_file_diff
            || file_diff_loading),
{
    tab == Tab::Graph && total_width >= GRAPH_THREE_COL_MIN_WIDTH && (has_file_diff
        || file_diff_loading)
}

/// Wherever the sidebar leaves forty columns, both columns beside it get twenty.
pub proof fn both_right_columns_stay_usable(remainder: int, diff_percent: int)
    requires
        remainder >= 40,
    ensures
        20 <= diff_column_width(remainder, diff_percent) <= remainder - 20,
{
}

/// On a terminal of at least thirty columns the sidebar has ten or more and leaves
/// twenty or more.
pub proof fn sidebar_stays_usable(total_width: int, split_percent: int)
    requires
        total_width >= 30,
    ensures
        10 <= sidebar_width(total_width, split_percent) <= total_width - 20,
{
}

/// The sidebar gets its percentage of the width, rounded down, wherever that leaves ten columns
/// for it and twenty for the rest; below that it keeps its ten, and past that the rest keeps
/// its twenty.
pub proof fn sidebars_get_their_share(total_width: int, split_percent: int)
    requires
        total_width >= 30,
        0 <= split_percent,
    ensures
        ({
            let width = sidebar_width(total_width, split_percent);
            &&& 10 < width < total_width - 20 ==> 100 * width <= total_width * split_percent < 100
                * (width + 1)
            &&& width == 10 && total_width > 30 ==> total_width * split_percent < 1100
            &&& width == total_width - 20 && total_width > 30 ==> total_width * split_percent
                >= 100 * width
        }),
{
}

/// The diff of a commit's file gets its percentage of what the sidebar leaves, rounded down,
/// wherever that leaves twenty columns for it and for the commit; below that it keeps its
/// twenty, and past that the commit keeps its own.
pub proof fn diffs_get_their_share(remainder: int, diff_percent: int)
    requires
        remainder >= 40,
        0 <= diff_percent,
    ensures
        ({
            let width = diff_column_width(remainder, diff_percent);
            &&& 20 < width < remainder - 20 ==> 100 * width <= remainder * diff_percent < 100 * (
            width + 1)
            &&& width == 20 && remainder > 40 ==> remainder * diff_percent < 2100
            &&& width == remainder - 20 && remainder > 40 ==> remainder * diff_percent >= 100
                * width
        }),
{
}

/// The Graph tab shows three columns where the terminal has a hundred columns and the diff of a
/// file is there or on its way, and no other tab does.
pub proof fn three_columns_need_room(tab: Tab, width: u16, loaded: bool, loading: bool)
    ensures
        compute_uses_three_col(tab, width, loaded, loading) <==> tab == Tab::Graph && width >= 100
            && (loaded || loading),
{
}

} // verus!
