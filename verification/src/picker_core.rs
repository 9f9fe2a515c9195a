//! What a key does in a picker: a filter line over a list of rows.

use crate::event::KeyEvent;
use crate::input_edit::{op_for_key, single_line_op, TextEditOp};
use crate::keymap::{resolved, Command, InputScope, Keymap};
use vstd::prelude::*;

verus! {

/// What a picker is asked to do.
#[derive(Clone, Copy, Debug, PartialEq, Eq, Structural)]
pub enum PickerInput {
    /// Close the picker.
    Cancel,
    /// Close the picker and quit.
    Quit,
    Confirm,
    MoveSelection(i32),
    Edit(TextEditOp),
    /// Nothing. The picker owns the keyboard, so the key goes nowhere else either.
    Unhandled,
}

/// What `key` asks of the picker that owns `scope`: the scope's bindings come
/// first, and what they leave edits the filter.
pub open spec fn picker_input(scope: InputScope, key: KeyEvent) -> PickerInput {
    match resolved(scope, key) {
        Some(Command::Close) => PickerInput::Cancel,
        Some(Command::Quit) => PickerInput::Quit,
        Some(Command::Confirm) => PickerInput::Confirm,
        Some(Command::MoveUp) => PickerInput::MoveSelection((-1) as i32),
        Some(Command::MoveDown) => PickerInput::MoveSelection(1),
        _ => match single_line_op(key) {
            Some(op) => PickerInput::Edit(op),
            None => PickerInput::Unhandled,
        },
    }
}

/// What `key` asks of the picker that owns `scope`.
pub fn input_for_key(scope: InputScope, key: &KeyEvent) -> (r: PickerInput)
    ensures
        r == picker_input(scope, *key),
{
    match Keymap::resolve(scope, key) {
        Some(Command::Close) => PickerInput::Cancel,
        Some(Command::Quit) => PickerInput::Quit,
        Some(Command::Confirm) => PickerInput::Confirm,
        Some(Command::MoveUp) => PickerInput::MoveSelection(-1),
        Some(Command::MoveDown) => PickerInput::MoveSelection(1),
        _ => match op_for_key(key) {
            Some(op) => PickerInput::Edit(op),
            None => PickerInput::Unhandled,
        },
    }
}

} // verus!
