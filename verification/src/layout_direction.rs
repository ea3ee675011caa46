//! Layout direction support for right-to-left languages (Arabic, Hebrew,
//! Persian, ...).
//!
//! The process-wide layout direction, which widgets fall back on when they
//! have none of their own, is kept by the application as a byte: see
//! [`LayoutDirection::from_u8`] and [`LayoutDirection::as_u8`].
use vstd::prelude::*;

verus! {

/// The direction of the layout flow: left-to-right (LTR) or right-to-left
/// (RTL).
#[derive(Debug, Clone, Copy, PartialEq, Eq, Hash, Structural)]
pub enum LayoutDirection {
    /// Left-to-right layout (default for most Western languages).
    Ltr,
    /// Right-to-left layout (for Arabic, Hebrew, etc.).
    Rtl,
}

/// The opposite direction.
pub open spec fn flipped(direction: LayoutDirection) -> LayoutDirection {
    match direction {
        LayoutDirection::Ltr => LayoutDirection::Rtl,
        LayoutDirection::Rtl => LayoutDirection::Ltr,
    }
}

/// The byte that stands for a direction: 0 for LTR, 1 for RTL.
pub open spec fn direction_byte(direction: LayoutDirection) -> u8 {
    match direction {
        LayoutDirection::Ltr => 0,
        LayoutDirection::Rtl => 1,
    }
}

/// The direction a byte stands for: 1 is RTL, anything else LTR.
pub open spec fn direction_of_byte(value: u8) -> LayoutDirection {
    if value == 1 {
        LayoutDirection::Rtl
    } else {
        LayoutDirection::Ltr
    }
}

impl Default for LayoutDirection {
    fn default() -> (r: Self)
        ensures
            r == LayoutDirection::Ltr,
    {
        LayoutDirection::Ltr
    }
}

impl LayoutDirection {
    /// Returns `true` if the layout direction is left-to-right.
    pub fn is_ltr(self) -> (r: bool)
        ensures
            r == (self == LayoutDirection::Ltr),
    {
        matches!(self, LayoutDirection::Ltr)
    }

    /// Returns `true` if the layout direction is right-to-left.
    pub fn is_rtl(self) -> (r: bool)
        ensures
            r == (self == LayoutDirection::Rtl),
    {
        matches!(self, LayoutDirection::Rtl)
    }

    /// Returns the opposite layout direction.
    pub fn flip(self) -> (r: Self)
        ensures
            r == flipped(self),
    {
        match self {
            LayoutDirection::Ltr => LayoutDirection::Rtl,
            LayoutDirection::Rtl => LayoutDirection::Ltr,
        }
    }

    /// Resolves a logical start/end pair to a physical left/right pair: in
    /// LTR start is left and end is right, in RTL the other way round.
    pub fn resolve_start_end<T>(self, start: T, end: T) -> (r: (T, T))
        ensures
            r == (if self == LayoutDirection::Ltr {
                (start, end)
            } else {
                (end, start)
            }),
    {
        match self {
            LayoutDirection::Ltr => (start, end),
            LayoutDirection::Rtl => (end, start),
        }
    }

    /// The byte that stands for this direction in the process-wide state:
    /// 0 for LTR, 1 for RTL.
    pub fn as_u8(self) -> (r: u8)
        ensures
            r == direction_byte(self),
    {
        match self {
            LayoutDirection::Ltr => 0,
            LayoutDirection::Rtl => 1,
        }
    }

    /// The direction a byte of the process-wide state stands for: 1 is RTL,
    /// anything else LTR.
    pub fn from_u8(value: u8) -> (r: Self)
        ensures
            r == direction_of_byte(value),
    {
        if value == 1 {
            LayoutDirection::Rtl
        } else {
            LayoutDirection::Ltr
        }
    }
}

/// Flipping twice gives the direction back, flipping always changes it,
/// and reading back the byte that stands for a direction gives that
/// direction.
pub proof fn law_layout_direction_round_trips(direction: LayoutDirection)
    ensures
        flipped(flipped(direction)) == direction,
        flipped(direction) != direction,
        direction_of_byte(direction_byte(direction)) == direction,
{
}

} // verus!
