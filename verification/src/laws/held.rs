//! Keys by what is held with them.

use crate::event::{KeyCode, KeyEvent, KeyModifiers};
use vstd::prelude::*;

verus! {

/// A key with these modifiers and no others.
pub open spec fn with_held(code: KeyCode, shift: bool, control: bool, alt: bool) -> KeyEvent {
    KeyEvent {
        code,
        modifiers: KeyModifiers {
            shift,
            control,
            alt,
            super_key: false,
            hyper: false,
            meta: false,
        },
    }
}

/// A key with nothing held.
pub open spec fn plain(code: KeyCode) -> KeyEvent {
    with_held(code, false, false, false)
}

/// A key with Shift held.
pub open spec fn shift(code: KeyCode) -> KeyEvent {
    with_held(code, true, false, false)
}

/// A key with Control held.
pub open spec fn ctrl(code: KeyCode) -> KeyEvent {
    with_held(code, false, true, false)
}

/// A key with Alt held.
pub open spec fn alt(code: KeyCode) -> KeyEvent {
    with_held(code, false, false, true)
}

/// A key with Control and Alt held.
pub open spec fn ctrl_alt(code: KeyCode) -> KeyEvent {
    with_held(code, false, true, true)
}

/// A key with Control and Shift held.
pub open spec fn ctrl_shift(code: KeyCode) -> KeyEvent {
    with_held(code, true, true, false)
}

/// A key with Alt and Shift held.
pub open spec fn alt_shift(code: KeyCode) -> KeyEvent {
    with_held(code, true, false, true)
}

} // verus!
