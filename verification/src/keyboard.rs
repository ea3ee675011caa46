//! Keyboard keys and modifiers, as menus and shortcuts use them.
use vstd::prelude::*;

verus! {

/// The state of the keyboard modifiers, as a set of flags.
#[derive(Debug, Clone, Copy, PartialEq, Eq, Hash, Default, Structural)]
pub struct Modifiers {
    /// The flags of the pressed modifiers.
    pub bits: u32,
}

/// The flag of the "shift" key.
pub const SHIFT_BIT: u32 = 0b100;
/// The flag of the "control" key.
pub const CTRL_BIT: u32 = 0b100_000;
/// The flag of the "alt" key.
pub const ALT_BIT: u32 = 0b100_000_000;
/// The flag of the "logo" key ("command" on Mac, "windows", "super").
pub const LOGO_BIT: u32 = 0b100_000_000_000;

#[allow(non_snake_case)]
impl Modifiers {
    /// The "shift" key.
    pub fn SHIFT() -> (r: Self)
        ensures
            r.bits == SHIFT_BIT,
    {
        Modifiers { bits: SHIFT_BIT }
    }

    /// The "control" key.
    pub fn CTRL() -> (r: Self)
        ensures
            r.bits == CTRL_BIT,
    {
        Modifiers { bits: CTRL_BIT }
    }

    /// The "alt" key.
    pub fn ALT() -> (r: Self)
        ensures
            r.bits == ALT_BIT,
    {
        Modifiers { bits: ALT_BIT }
    }

    /// The "windows" key on Windows, "command" key on Mac, and "super" key
    /// on Linux.
    pub fn LOGO() -> (r: Self)
        ensures
            r.bits == LOGO_BIT,
    {
        Modifiers { bits: LOGO_BIT }
    }

    /// The primary shortcut modifier of this platform: "control" (the
    /// library is built for Linux, Windows and the web, where it is "control").
    pub fn COMMAND() -> (r: Self)
        ensures
            r.bits == CTRL_BIT,
    {
        Modifiers { bits: CTRL_BIT }
    }

    /// No modifiers.
    pub fn empty() -> (r: Self)
        ensures
            r.bits == 0,
    {
        Modifiers { bits: 0 }
    }

    /// The modifiers of both sets.
    pub fn union(self, other: Self) -> (r: Self)
        ensures
            r.bits == self.bits | other.bits,
    {
        Modifiers { bits: self.bits | other.bits }
    }
}

/// A key on the keyboard.
#[derive(Debug, Clone, PartialEq, Eq, Hash)]
pub enum Key {
    /// A named key, such as "Enter" or "F1".
    Named(String),
    /// A key that produces a character.
    Character(String),
    /// A key that could not be identified.
    Unidentified,
}

} // verus!
