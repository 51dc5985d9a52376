//! Key chords: a physical key identifier plus a modifier.

use vstd::prelude::*;

verus! {

/// The closed set of keys a user can bind: a printable character, a named
/// key, or a function key with its numeric index.
#[derive(Clone, Copy, Debug, PartialEq, Eq, Structural)]
pub enum KeyCode {
    Backspace,
    Enter,
    Left,
    Right,
    Up,
    Down,
    Home,
    End,
    PageUp,
    PageDown,
    Tab,
    Delete,
    Esc,
    F(u8),
    Char(char),
}

/// The modifier half of a chord; a chord without a modifier carries `Plain`.
#[derive(Clone, Copy, Debug, PartialEq, Eq, Structural, Hash)]
pub enum KeyModifier {
    Plain,
    Ctrl,
    Shift,
}

impl KeyModifier {
    /// Display prefix of the modifier: empty for a plain chord.
    pub open spec fn to_str_spec(self) -> Seq<char> {
        match self {
            KeyModifier::Plain => ""@,
            KeyModifier::Ctrl => "CTRL"@,
            KeyModifier::Shift => "SHIFT"@,
        }
    }

    pub fn to_str(self) -> (r: &'static str)
        ensures
            r@ == self.to_str_spec(),
    {
        match self {
            KeyModifier::Plain => "",
            KeyModifier::Ctrl => "CTRL",
            KeyModifier::Shift => "SHIFT",
        }
    }

    pub fn is_none(self) -> (r: bool)
        ensures
            r == (self == KeyModifier::Plain),
    {
        matches!(self, KeyModifier::Plain)
    }
}

impl Default for KeyModifier {
    fn default() -> (r: Self)
        ensures
            r == KeyModifier::Plain,
    {
        KeyModifier::Plain
    }
}

/// A raw key press as the event loop hands it in: which key, which modifier.
#[derive(Clone, Copy, Debug, PartialEq, Eq, Structural)]
pub struct KeyEvent {
    pub code: KeyCode,
    pub modifier: KeyModifier,
}

} // verus!
