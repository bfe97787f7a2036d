//! Key events as the runtime sees them, independent of any terminal backend.

use vstd::prelude::*;

verus! {

/// The key that was pressed.
#[derive(Clone, Copy, Debug, PartialEq, Eq, Structural)]
pub enum KeyCode {
    Backspace,
    Enter,
    Left,
    Right,
    Up,
    Down,
    Home,
    End,
    PageUp,
    PageDown,
    Tab,
    BackTab,
    Delete,
    Insert,
    F(u8),
    Char(char),
    Null,
    Esc,
    /// A key that the runtime does not tell apart from others.
    Other,
}

/// Whether a key went down, is held, or went up.
#[derive(Clone, Copy, Debug, PartialEq, Eq, Structural)]
pub enum KeyEventKind {
    Press,
    Repeat,
    Release,
}

/// No modifier held.
pub const NO_MODIFIERS: u8 = 0;

/// The shift modifier bit.
pub const SHIFT: u8 = 1;

/// The control modifier bit.
pub const CONTROL: u8 = 2;

/// The alt modifier bit.
pub const ALT: u8 = 4;

/// A key event: the key, the modifier bits held, and its kind.
#[derive(Clone, Copy, Debug, PartialEq, Eq, Structural)]
pub struct KeyEvent {
    pub code: KeyCode,
    pub modifiers: u8,
    pub kind: KeyEventKind,
}

impl KeyEvent {
    /// A press of `code` with the given modifier bits.
    pub fn new(code: KeyCode, modifiers: u8) -> (r: KeyEvent)
        ensures
            r == (KeyEvent { code, modifiers, kind: KeyEventKind::Press }),
    {
        KeyEvent { code, modifiers, kind: KeyEventKind::Press }
    }

    /// An event of the given kind.
    pub fn new_with_kind(code: KeyCode, modifiers: u8, kind: KeyEventKind) -> (r: KeyEvent)
        ensures
            r == (KeyEvent { code, modifiers, kind }),
    {
        KeyEvent { code, modifiers, kind }
    }

    /// Whether the event is a key going down, the only kind the focus chain sees.
    pub fn is_press(&self) -> (r: bool)
        ensures
            r == (self.kind == KeyEventKind::Press),
    {
        match self.kind {
            KeyEventKind::Press => true,
            _ => false,
        }
    }
}

} // verus!
