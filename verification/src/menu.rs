//! Moving through a menu that wraps around at both ends.

use vstd::prelude::*;

verus! {

/// `i32::rem_euclid`: the remainder that is never negative.
pub assume_specification[ i32::rem_euclid ](lhs: i32, rhs: i32) -> (r: i32)
    requires
        rhs > 0,
    ensures
        r as int == lhs as int % rhs as int,
;

/// Whether `selected` and the row `delta` below it can be counted in an `i32`.
pub open spec fn can_move(selected: usize, delta: i32) -> bool {
    selected <= i32::MAX && i32::MIN <= selected + delta <= i32::MAX
}

/// The row `delta` below `selected` in a menu of `len` rows, counted around its
/// ends.
pub fn wrap_selection(selected: usize, delta: i32, len: usize) -> (r: usize)
    requires
        0 < len <= i32::MAX,
        can_move(selected, delta),
    ensures
        r == (selected + delta) % (len as int),
        r < len,
{
    let idx: i32 = selected as i32 + delta;
    idx.rem_euclid(len as i32) as usize
}

/// Moving down and then up by the same number of rows ends where it began.
pub proof fn moving_back_undoes_a_move(selected: int, delta: int, len: int)
    requires
        0 <= selected < len,
    ensures
        ((selected + delta) % len - delta) % len == selected,
{
    vstd::arithmetic::div_mod::lemma_add_mod_noop_right(-delta, selected + delta, len);
    vstd::arithmetic::div_mod::lemma_small_mod(selected as nat, len as nat);
}

} // verus!
