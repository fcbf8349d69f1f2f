//! Input: the key presses that the application reacts to.
use vstd::prelude::*;

verus! {

/// A key. `Other` stands for every key without a binding.
#[derive(Debug, Clone, Copy, PartialEq, Eq, Structural)]
pub enum KeyCode {
    Char(char),
    Enter,
    Esc,
    Up,
    Down,
    PageUp,
    PageDown,
    Home,
    End,
    Other,
}

/// The modifier keys held down with a key, one bit each.
#[derive(Debug, Clone, Copy, PartialEq, Eq, Structural)]
pub struct KeyModifiers {
    pub bits: u8,
}

/// The bit of the control key.
pub const CONTROL_BIT: u8 = 0b0000_0010;

impl KeyModifiers {
    /// No modifier.
    pub fn empty() -> (r: Self)
        ensures
            r.bits == 0,
    {
        KeyModifiers { bits: 0 }
    }

    /// The control key alone.
    pub fn control() -> (r: Self)
        ensures
            r.bits == CONTROL_BIT,
    {
        KeyModifiers { bits: CONTROL_BIT }
    }

    /// All bits of `other` are set.
    pub open spec fn holds(self, other: KeyModifiers) -> bool {
        self.bits & other.bits == other.bits
    }

    /// Whether all bits of `other` are set.
    pub fn contains(&self, other: KeyModifiers) -> (r: bool)
        ensures
            r == self.holds(other),
    {
        self.bits & other.bits == other.bits
    }
}

/// A key press.
#[derive(Debug, Clone, Copy, PartialEq, Eq, Structural)]
pub struct KeyEvent {
    pub code: KeyCode,
    pub modifiers: KeyModifiers,
}

impl KeyEvent {
    /// The press of `code` with `modifiers` held down.
    pub fn new(code: KeyCode, modifiers: KeyModifiers) -> (r: Self)
        ensures
            r.code == code,
            r.modifiers == modifiers,
    {
        KeyEvent { code, modifiers }
    }

    /// The control key is held down.
    pub open spec fn with_control(self) -> bool {
        self.modifiers.holds(KeyModifiers { bits: CONTROL_BIT })
    }
}

} // verus!
