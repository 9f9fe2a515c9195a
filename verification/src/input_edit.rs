//! Which edit of a single-line text field a key stands for.

use crate::event::{KeyCode, KeyEvent};
use vstd::prelude::*;

verus! {

/// An edit of a text field.
#[derive(Clone, Copy, Debug, PartialEq, Eq, Structural)]
pub enum TextEditOp {
    MoveLeft,
    MoveRight,
    MoveWordLeft,
    MoveWordRight,
    MoveStart,
    MoveEnd,
    MoveLineUp,
    MoveLineDown,
    MoveLineStart,
    MoveLineEnd,
    DeleteBackward,
    DeleteForward,
    DeleteWordBackward,
    DeleteWordForward,
    Clear,
    InsertChar(char),
    InsertNewline,
    Consume,
}

/// What became of an edit that was handed to a text field.
#[derive(Clone, Copy, Debug, PartialEq, Eq, Structural)]
pub enum TextEditOutcome {
    Edited,
    CursorOnly,
    Rejected,
    Unhandled,
}

/// The edit that `key` stands for in a single-line field. Alt or Control turns
/// the arrows, Backspace and Delete into their word-wise forms, and a character
/// typed without Control is inserted unless Alt makes it a shortcut.
pub open spec fn single_line_op(key: KeyEvent) -> Option<TextEditOp> {
    let ctrl = key.modifiers.control;
    let alt = key.modifiers.alt;
    let word = alt || ctrl;
    match key.code {
        KeyCode::Left => Some(
            if word {
                TextEditOp::MoveWordLeft
            } else {
                TextEditOp::MoveLeft
            },
        ),
        KeyCode::Right => Some(
            if word {
                TextEditOp::MoveWordRight
            } else {
                TextEditOp::MoveRight
            },
        ),
        KeyCode::Home => Some(TextEditOp::MoveStart),
        KeyCode::End => Some(TextEditOp::MoveEnd),
        KeyCode::Backspace => Some(
            if word {
                TextEditOp::DeleteWordBackward
            } else {
                TextEditOp::DeleteBackward
            },
        ),
        KeyCode::Delete => Some(
            if word {
                TextEditOp::DeleteWordForward
            } else {
                TextEditOp::DeleteForward
            },
        ),
        KeyCode::Char(c) => if ctrl && c == 'a' {
            Some(TextEditOp::MoveStart)
        } else if ctrl && c == 'e' {
            Some(TextEditOp::MoveEnd)
        } else if alt && c == 'b' {
            Some(TextEditOp::MoveWordLeft)
        } else if alt && c == 'f' {
            Some(TextEditOp::MoveWordRight)
        } else if ctrl && c == 'w' {
            Some(TextEditOp::DeleteWordBackward)
        } else if ctrl && c == 'u' {
            Some(TextEditOp::Clear)
        } else if alt && c == 'd' {
            Some(TextEditOp::DeleteWordForward)
        } else if !ctrl {
            Some(TextEditOp::InsertChar(c))
        } else {
            None
        },
        _ => None,
    }
}

/// The edit that `key` stands for in a single-line field.
pub fn op_for_key(key: &KeyEvent) -> (r: Option<TextEditOp>)
    ensures
        r == single_line_op(*key),
{
    let ctrl = key.modifiers.control;
    let alt = key.modifiers.alt;
    match key.code {
        KeyCode::Left if alt || ctrl => Some(TextEditOp::MoveWordLeft),
        KeyCode::Right if alt || ctrl => Some(TextEditOp::MoveWordRight),
        KeyCode::Left => Some(TextEditOp::MoveLeft),
        KeyCode::Right => Some(TextEditOp::MoveRight),
        KeyCode::Home => Some(TextEditOp::MoveStart),
        KeyCode::End => Some(TextEditOp::MoveEnd),
        KeyCode::Char('a') if ctrl => Some(TextEditOp::MoveStart),
        KeyCode::Char('e') if ctrl => Some(TextEditOp::MoveEnd),
        KeyCode::Char('b') if alt => Some(TextEditOp::MoveWordLeft),
        KeyCode::Char('f') if alt => Some(TextEditOp::MoveWordRight),
        KeyCode::Backspace if alt || ctrl => Some(TextEditOp::DeleteWordBackward),
        KeyCode::Char('w') if ctrl => Some(TextEditOp::DeleteWordBackward),
        KeyCode::Char('u') if ctrl => Some(TextEditOp::Clear),
        KeyCode::Backspace => Some(TextEditOp::DeleteBackward),
        KeyCode::Delete if alt || ctrl => Some(TextEditOp::DeleteWordForward),
        KeyCode::Delete => Some(TextEditOp::DeleteForward),
        KeyCode::Char('d') if alt => Some(TextEditOp::DeleteWordForward),
        KeyCode::Char(c) if !ctrl => Some(TextEditOp::InsertChar(c)),
        _ => None,
    }
}

/// A character typed with no Control and no Alt always lands in the field as
/// itself.
pub proof fn plain_characters_are_inserted(key: KeyEvent, c: char)
    requires
        key.code == KeyCode::Char(c),
        !key.modifiers.control,
        !key.modifiers.alt,
    ensures
        single_line_op(key) == Some(TextEditOp::InsertChar(c)),
{
}

/// Letters held with Control or Alt edit as they do in a shell: to the start, to the end, over
/// a word, and away with a word or everything.
pub proof fn shortcuts_edit_as_in_a_shell(key: KeyEvent, c: char)
    requires
        key.code == KeyCode::Char(c),
    ensures
        ({
            let held = key.modifiers;
            let only_control = held.control && !held.alt;
            let only_alt = held.alt && !held.control;
            &&& only_control && c == 'a' ==> single_line_op(key) == Some(TextEditOp::MoveStart)
            &&& only_control && c == 'e' ==> single_line_op(key) == Some(TextEditOp::MoveEnd)
            &&& only_control && c == 'w' ==> single_line_op(key) == Some(
                TextEditOp::DeleteWordBackward,
            )
            &&& only_control && c == 'u' ==> single_line_op(key) == Some(TextEditOp::Clear)
            &&& only_alt && c == 'b' ==> single_line_op(key) == Some(TextEditOp::MoveWordLeft)
            &&& only_alt && c == 'f' ==> single_line_op(key) == Some(TextEditOp::MoveWordRight)
            &&& only_alt && c == 'd' ==> single_line_op(key) == Some(
                TextEditOp::DeleteWordForward,
            )
            &&& held.control && c != 'a' && c != 'e' && c != 'w' && c != 'u' && !held.alt
                ==> single_line_op(key) is None
        }),
{
}

} // verus!
