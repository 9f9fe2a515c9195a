//! Which edit of a multi-line text field a key stands for.

use crate::event::{KeyCode, KeyEvent};
use crate::input_edit;
use crate::input_edit::{single_line_op, TextEditOp};
use vstd::prelude::*;

verus! {

/// The edit that `key` stands for in a multi-line field: line-wise motion and
/// newlines where Control is not held, and the single-line edits otherwise.
pub open spec fn multi_line_op(key: KeyEvent) -> Option<TextEditOp> {
    let ctrl = key.modifiers.control;
    if key.code == KeyCode::Enter && !ctrl {
        Some(TextEditOp::InsertNewline)
    } else if key.code == KeyCode::Up && !ctrl {
        Some(TextEditOp::MoveLineUp)
    } else if key.code == KeyCode::Down && !ctrl {
        Some(TextEditOp::MoveLineDown)
    } else if key.code == KeyCode::Home && !ctrl {
        Some(TextEditOp::MoveLineStart)
    } else if key.code == KeyCode::End && !ctrl {
        Some(TextEditOp::MoveLineEnd)
    } else if key.code == KeyCode::Char('\r') {
        Some(TextEditOp::Consume)
    } else {
        single_line_op(key)
    }
}

/// The edit that `key` stands for in a multi-line field.
pub fn op_for_key(key: &KeyEvent) -> (r: Option<TextEditOp>)
    ensures
        r == multi_line_op(*key),
{
    let ctrl = key.modifiers.control;
    match key.code {
        KeyCode::Enter if !ctrl => Some(TextEditOp::InsertNewline),
        KeyCode::Up if !ctrl => Some(TextEditOp::MoveLineUp),
        KeyCode::Down if !ctrl => Some(TextEditOp::MoveLineDown),
        KeyCode::Home if !ctrl => Some(TextEditOp::MoveLineStart),
        KeyCode::End if !ctrl => Some(TextEditOp::MoveLineEnd),
        KeyCode::Char('\r') => Some(TextEditOp::Consume),
        _ => input_edit::op_for_key(key),
    }
}

/// Enter with Control is no edit, so that the owner of the field can take it as a
/// submit.
pub proof fn control_enter_is_left_to_the_owner(key: KeyEvent)
    requires
        key.code == KeyCode::Enter,
        key.modifiers.control,
    ensures
        multi_line_op(key) is None,
{
}

} // verus!
