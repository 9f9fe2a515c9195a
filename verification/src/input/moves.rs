//! Keys that the tabs share: moving through a list and panning a text.

use crate::event::{KeyCode, KeyEvent};
use vstd::prelude::*;

verus! {

/// A move through a list or a page of text.
#[derive(Clone, Copy, Debug, PartialEq, Eq, Structural)]
pub enum ListMove {
    Up,
    Down,
    PageUp,
    PageDown,
}

/// The move that a key asks of a list: the arrows and `k`, `j` without Control, their
/// readline forms with it, and the page keys.
pub open spec fn list_move_spec(key: KeyEvent) -> Option<ListMove> {
    let ctrl = key.modifiers.control;
    if !ctrl && (key.code == KeyCode::Up || key.code == KeyCode::Char('k')) {
        Some(ListMove::Up)
    } else if !ctrl && (key.code == KeyCode::Down || key.code == KeyCode::Char('j')) {
        Some(ListMove::Down)
    } else if ctrl && (key.code == KeyCode::Char('p') || key.code == KeyCode::Char('k')) {
        Some(ListMove::Up)
    } else if ctrl && (key.code == KeyCode::Char('n') || key.code == KeyCode::Char('j')) {
        Some(ListMove::Down)
    } else if key.code == KeyCode::PageUp {
        Some(ListMove::PageUp)
    } else if key.code == KeyCode::PageDown {
        Some(ListMove::PageDown)
    } else {
        None
    }
}

/// The move that a key asks of a list.
pub fn list_move(key: &KeyEvent) -> (r: Option<ListMove>)
    ensures
        r == list_move_spec(*key),
{
    let ctrl = key.modifiers.control;
    match key.code {
        KeyCode::Up => if ctrl {
            None
        } else {
            Some(ListMove::Up)
        },
        KeyCode::Down => if ctrl {
            None
        } else {
            Some(ListMove::Down)
        },
        KeyCode::Char('k') => Some(ListMove::Up),
        KeyCode::Char('j') => Some(ListMove::Down),
        KeyCode::Char('p') => if ctrl {
            Some(ListMove::Up)
        } else {
            None
        },
        KeyCode::Char('n') => if ctrl {
            Some(ListMove::Down)
        } else {
            None
        },
        KeyCode::PageUp => Some(ListMove::PageUp),
        KeyCode::PageDown => Some(ListMove::PageDown),
        _ => None,
    }
}

/// A move as a number of rows, where a page has `page` of them.
pub open spec fn rows_of(by: ListMove, page: int) -> i32 {
    match by {
        ListMove::Up => (-1) as i32,
        ListMove::Down => 1,
        ListMove::PageUp => (-page) as i32,
        ListMove::PageDown => page as i32,
    }
}

/// A move as a number of rows, where a page has `page` of them.
pub fn move_rows(by: ListMove, page: i32) -> (r: i32)
    requires
        page >= 0,
    ensures
        r == rows_of(by, page as int),
{
    match by {
        ListMove::Up => -1,
        ListMove::Down => 1,
        ListMove::PageUp => -page,
        ListMove::PageDown => page,
    }
}

/// How many columns an arrow pans: ten with Shift, one without.
pub open spec fn pan_step(key: KeyEvent) -> int {
    if key.modifiers.shift {
        10
    } else {
        1
    }
}

/// How many columns an arrow pans.
pub fn pan_columns(key: &KeyEvent) -> (r: i32)
    ensures
        r == pan_step(*key),
{
    if key.modifiers.shift {
        10
    } else {
        1
    }
}

/// Whether neither Control nor Alt nor Shift is held.
pub open spec fn is_plain(key: KeyEvent) -> bool {
    !key.modifiers.control && !key.modifiers.alt && !key.modifiers.shift
}

} // verus!
