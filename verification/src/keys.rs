//! Keys and modifier sets as the edit modes see them.
use vstd::prelude::*;

use crate::enums::MouseButton;

verus! {

/// A key on the keyboard.
#[derive(Clone, Copy, Debug, PartialEq, Eq, Hash, Structural)]
pub enum KeyCode {
    Backspace,
    Enter,
    Left,
    Right,
    Up,
    Down,
    Home,
    End,
    PageUp,
    PageDown,
    Tab,
    BackTab,
    Delete,
    Insert,
    F(u8),
    Char(char),
    Null,
    Esc,
}

/// A set of modifier keys held with a key, one bit per modifier.
#[derive(Clone, Copy, Debug, PartialEq, Eq, Hash, Structural)]
pub struct KeyModifiers {
    pub bits: u8,
}

impl KeyModifiers {
    /// No modifier.
    pub fn none() -> (r: KeyModifiers)
        ensures
            r.bits == 0,
    {
        KeyModifiers { bits: 0 }
    }

    /// Shift alone.
    pub fn shift() -> (r: KeyModifiers)
        ensures
            r.bits == 1,
    {
        KeyModifiers { bits: 1 }
    }

    /// Control alone.
    pub fn control() -> (r: KeyModifiers)
        ensures
            r.bits == 2,
    {
        KeyModifiers { bits: 2 }
    }

    /// Alt alone.
    pub fn alt() -> (r: KeyModifiers)
        ensures
            r.bits == 4,
    {
        KeyModifiers { bits: 4 }
    }

    /// Super alone.
    pub fn super_key() -> (r: KeyModifiers)
        ensures
            r.bits == 8,
    {
        KeyModifiers { bits: 8 }
    }

    /// Shift and Control together.
    pub fn shift_control() -> (r: KeyModifiers)
        ensures
            r.bits == 3,
    {
        KeyModifiers { bits: 3 }
    }

    /// Both sets together.
    pub fn union(self, other: KeyModifiers) -> (r: KeyModifiers)
        ensures
            r.bits == self.bits | other.bits,
    {
        KeyModifiers { bits: self.bits | other.bits }
    }

    /// Whether no modifier is held.
    pub fn is_empty(self) -> (r: bool)
        ensures
            r == (self.bits == 0),
    {
        self.bits == 0
    }
}

/// `CONTROL | ALT`, a chord some terminals report for AltGr.
pub open spec fn control_alt_bits() -> u8 {
    6
}

/// `CONTROL | ALT | SHIFT`.
pub open spec fn control_alt_shift_bits() -> u8 {
    7
}

/// A key together with the modifiers held with it.
#[derive(Clone, Copy, Debug, PartialEq, Eq, Hash, Structural)]
pub struct KeyCombination {
    pub modifier: KeyModifiers,
    pub key_code: KeyCode,
}

/// A terminal input event as the edit modes see it.
#[derive(Clone, Debug, PartialEq, Eq)]
pub enum InputEvent {
    /// A key pressed with a set of modifiers.
    Key { code: KeyCode, modifiers: KeyModifiers },
    /// A mouse button pressed at a cell.
    MouseDown { button: MouseButton, column: u16, row: u16, modifiers: KeyModifiers },
    /// Any other mouse activity.
    MouseOther,
    Resize(u16, u16),
    FocusGained,
    FocusLost,
    /// Text pasted in one piece.
    Paste(String),
}

} // verus!
