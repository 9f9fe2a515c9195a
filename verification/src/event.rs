//! Keyboard and mouse events as the dispatchers read them.

use vstd::prelude::*;

verus! {

/// A key, apart from its modifiers.
#[derive(Clone, Copy, Debug, PartialEq, Eq, Hash, Structural)]
pub enum KeyCode {
    Char(char),
    F(u8),
    Backspace,
    Enter,
    Left,
    Right,
    Up,
    Down,
    Home,
    End,
    PageUp,
    PageDown,
    Tab,
    BackTab,
    Delete,
    Insert,
    Esc,
    /// Any key that no binding speaks of: lock keys, media keys and the like.
    Other,
}

/// The modifiers held with a key or a mouse button.
#[derive(Clone, Copy, Debug, PartialEq, Eq, Hash, Structural)]
pub struct KeyModifiers {
    pub shift: bool,
    pub control: bool,
    pub alt: bool,
    pub super_key: bool,
    pub hyper: bool,
    pub meta: bool,
}

impl KeyModifiers {
    /// No modifier at all.
    #[verifier::allow_in_spec]
    pub fn none() -> KeyModifiers
        returns
            (KeyModifiers {
                shift: false,
                control: false,
                alt: false,
                super_key: false,
                hyper: false,
                meta: false,
            }),
    {
        KeyModifiers {
            shift: false,
            control: false,
            alt: false,
            super_key: false,
            hyper: false,
            meta: false,
        }
    }

    /// These modifiers and Shift.
    #[verifier::allow_in_spec]
    pub fn with_shift(self) -> KeyModifiers
        returns
            (KeyModifiers { shift: true, ..self }),
    {
        KeyModifiers { shift: true, ..self }
    }

    /// These modifiers and Control.
    #[verifier::allow_in_spec]
    pub fn with_control(self) -> KeyModifiers
        returns
            (KeyModifiers { control: true, ..self }),
    {
        KeyModifiers { control: true, ..self }
    }

    /// These modifiers and Alt.
    #[verifier::allow_in_spec]
    pub fn with_alt(self) -> KeyModifiers
        returns
            (KeyModifiers { alt: true, ..self }),
    {
        KeyModifiers { alt: true, ..self }
    }

    /// Shift alone.
    #[verifier::allow_in_spec]
    pub fn shift() -> KeyModifiers
        returns
            KeyModifiers::none().with_shift(),
    {
        KeyModifiers::none().with_shift()
    }

    /// Control alone.
    #[verifier::allow_in_spec]
    pub fn control() -> KeyModifiers
        returns
            KeyModifiers::none().with_control(),
    {
        KeyModifiers::none().with_control()
    }

    /// Alt alone.
    #[verifier::allow_in_spec]
    pub fn alt() -> KeyModifiers
        returns
            KeyModifiers::none().with_alt(),
    {
        KeyModifiers::none().with_alt()
    }

    /// Whether no modifier is held.
    #[verifier::allow_in_spec]
    pub fn is_empty(&self) -> bool
        returns
            *self == KeyModifiers::none(),
    {
        *self == KeyModifiers::none()
    }
}

/// A key press.
#[derive(Clone, Copy, Debug, PartialEq, Eq, Hash, Structural)]
pub struct KeyEvent {
    pub code: KeyCode,
    pub modifiers: KeyModifiers,
}

impl KeyEvent {
    #[verifier::allow_in_spec]
    pub fn new(code: KeyCode, modifiers: KeyModifiers) -> KeyEvent
        returns
            (KeyEvent { code, modifiers }),
    {
        KeyEvent { code, modifiers }
    }
}

/// A mouse button.
#[derive(Clone, Copy, Debug, PartialEq, Eq, Hash, Structural)]
pub enum MouseButton {
    Left,
    Right,
    Middle,
}

/// What the mouse did.
#[derive(Clone, Copy, Debug, PartialEq, Eq, Hash, Structural)]
pub enum MouseEventKind {
    Down(MouseButton),
    Up(MouseButton),
    Drag(MouseButton),
    Moved,
    ScrollDown,
    ScrollUp,
    ScrollLeft,
    ScrollRight,
}

/// What the mouse did, and in which terminal cell.
#[derive(Clone, Copy, Debug, PartialEq, Eq, Hash, Structural)]
pub struct MouseEvent {
    pub kind: MouseEventKind,
    pub column: u16,
    pub row: u16,
    pub modifiers: KeyModifiers,
}

} // verus!
