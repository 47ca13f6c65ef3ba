//! Terminal events as the key handlers read them.
use vstd::prelude::*;

verus! {

/// A key of the keyboard.
#[derive(Clone, Copy, Debug, PartialEq, Eq, Structural)]
pub enum KeyCode {
    Backspace,
    Enter,
    Left,
    Right,
    Up,
    Down,
    Home,
    End,
    PageUp,
    PageDown,
    Tab,
    BackTab,
    Delete,
    Insert,
    /// A function key, F1 to F12 and beyond.
    F(u8),
    /// A character key.
    Char(char),
    Null,
    Esc,
    /// Any other key (media keys, lone modifier keys, lock keys).
    Other,
}

/// The modifier keys held with a key: none, exactly one of them, or a
/// combination given by its bit set (shift 1, control 2, alt 4, super 8,
/// hyper 16, meta 32).
#[allow(non_camel_case_types)]
#[derive(Clone, Copy, Debug, PartialEq, Eq, Structural)]
pub enum KeyModifiers {
    NONE,
    SHIFT,
    CONTROL,
    ALT,
    SUPER,
    HYPER,
    META,
    Combined(u8),
}

/// The bit set of `m`: the named variants stand for one bit each, and
/// `Combined` for the bits it holds, so that two ways of writing one set of
/// modifiers mean the same.
pub open spec fn modifier_bits(m: KeyModifiers) -> u8 {
    match m {
        KeyModifiers::NONE => 0,
        KeyModifiers::SHIFT => 1,
        KeyModifiers::CONTROL => 2,
        KeyModifiers::ALT => 4,
        KeyModifiers::SUPER => 8,
        KeyModifiers::HYPER => 16,
        KeyModifiers::META => 32,
        KeyModifiers::Combined(bits) => bits,
    }
}

/// The bit of the control key.
pub const CONTROL_BITS: u8 = 2;

impl KeyModifiers {
    /// The bit set of these modifiers.
    pub fn bits(&self) -> (r: u8)
        ensures
            r == modifier_bits(*self),
    {
        match self {
            KeyModifiers::NONE => 0,
            KeyModifiers::SHIFT => 1,
            KeyModifiers::CONTROL => 2,
            KeyModifiers::ALT => 4,
            KeyModifiers::SUPER => 8,
            KeyModifiers::HYPER => 16,
            KeyModifiers::META => 32,
            KeyModifiers::Combined(bits) => *bits,
        }
    }
}

/// A key press.
#[derive(Clone, Copy, Debug, PartialEq, Eq, Structural)]
pub struct KeyEvent {
    pub code: KeyCode,
    pub modifiers: KeyModifiers,
}

impl KeyEvent {
    /// A key press of `code` with `modifiers` held.
    pub fn new(code: KeyCode, modifiers: KeyModifiers) -> (r: KeyEvent)
        ensures
            r.code == code,
            r.modifiers == modifiers,
    {
        KeyEvent { code, modifiers }
    }
}

/// Terminal events.
#[derive(Clone, Copy, Debug, PartialEq, Eq, Structural)]
pub enum Event {
    /// Terminal tick.
    Tick,
    /// Key press.
    Key(KeyEvent),
    /// Mouse click or scroll at a column and row.
    Mouse(u16, u16),
    /// Terminal resize to a width and height.
    Resize(u16, u16),
}

} // verus!
