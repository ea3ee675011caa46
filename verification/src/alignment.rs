//! Align and position widgets.
use vstd::prelude::*;

use crate::layout_direction::LayoutDirection;

verus! {

/// Alignment on the axis of a container.
#[derive(Debug, Clone, Copy, PartialEq, Eq, Hash, Structural)]
pub enum Alignment {
    /// Align at the start of the axis.
    Start,
    /// Align at the center of the axis.
    Center,
    /// Align at the end of the axis.
    End,
}

/// The horizontal [`Alignment`] of some resource.
#[derive(Debug, Clone, Copy, PartialEq, Eq, Hash, Structural)]
pub enum Horizontal {
    /// Align left.
    Left,
    /// Horizontally centered.
    Center,
    /// Align right.
    Right,
}

/// The vertical [`Alignment`] of some resource.
#[derive(Debug, Clone, Copy, PartialEq, Eq, Hash, Structural)]
pub enum Vertical {
    /// Align top.
    Top,
    /// Vertically centered.
    Center,
    /// Align bottom.
    Bottom,
}

/// The physical horizontal alignment of a logical one: in LTR start is left
/// and end is right, in RTL start is right and end is left.
pub open spec fn horizontal_in(alignment: Alignment, direction: LayoutDirection) -> Horizontal {
    match alignment {
        Alignment::Start => if direction == LayoutDirection::Rtl {
            Horizontal::Right
        } else {
            Horizontal::Left
        },
        Alignment::Center => Horizontal::Center,
        Alignment::End => if direction == LayoutDirection::Rtl {
            Horizontal::Left
        } else {
            Horizontal::Right
        },
    }
}

/// The alignment on a horizontal axis, laid out physically: start and end
/// swap in RTL, center stays.
pub open spec fn horizontal_alignment_in(alignment: Alignment, direction: LayoutDirection) -> Alignment {
    if direction == LayoutDirection::Rtl {
        match alignment {
            Alignment::Start => Alignment::End,
            Alignment::Center => Alignment::Center,
            Alignment::End => Alignment::Start,
        }
    } else {
        alignment
    }
}

/// The alignment a horizontal one stands for: left is start, right is end.
pub open spec fn alignment_of_horizontal(horizontal: Horizontal) -> Alignment {
    match horizontal {
        Horizontal::Left => Alignment::Start,
        Horizontal::Center => Alignment::Center,
        Horizontal::Right => Alignment::End,
    }
}

/// The alignment a vertical one stands for: top is start, bottom is end.
pub open spec fn alignment_of_vertical(vertical: Vertical) -> Alignment {
    match vertical {
        Vertical::Top => Alignment::Start,
        Vertical::Center => Alignment::Center,
        Vertical::Bottom => Alignment::End,
    }
}

/// The horizontal alignment an alignment stands for: start is left, end is
/// right.
pub open spec fn horizontal_of_alignment(alignment: Alignment) -> Horizontal {
    match alignment {
        Alignment::Start => Horizontal::Left,
        Alignment::Center => Horizontal::Center,
        Alignment::End => Horizontal::Right,
    }
}

/// The vertical alignment an alignment stands for: start is top, end is
/// bottom.
pub open spec fn vertical_of_alignment(alignment: Alignment) -> Vertical {
    match alignment {
        Alignment::Start => Vertical::Top,
        Alignment::Center => Vertical::Center,
        Alignment::End => Vertical::Bottom,
    }
}

impl Alignment {
    /// Resolves the alignment to a horizontal alignment in the given layout
    /// direction.
    pub fn resolve_horizontal_in(self, direction: LayoutDirection) -> (r: Horizontal)
        ensures
            r == horizontal_in(self, direction),
    {
        match self {
            Alignment::Start => {
                if direction.is_rtl() {
                    Horizontal::Right
                } else {
                    Horizontal::Left
                }
            },
            Alignment::Center => Horizontal::Center,
            Alignment::End => {
                if direction.is_rtl() {
                    Horizontal::Left
                } else {
                    Horizontal::Right
                }
            },
        }
    }

    /// Resolves the alignment for a horizontal axis into a physical
    /// alignment, for layout-time positioning: `Start` and `End` swap in RTL,
    /// `Center` stays.
    pub fn resolve_horizontal_alignment_in(self, direction: LayoutDirection) -> (r: Self)
        ensures
            r == horizontal_alignment_in(self, direction),
    {
        if direction.is_rtl() {
            match self {
                Alignment::Start => Alignment::End,
                Alignment::Center => Alignment::Center,
                Alignment::End => Alignment::Start,
            }
        } else {
            self
        }
    }
}

impl From<Horizontal> for Alignment {
    fn from(horizontal: Horizontal) -> (r: Self) {
        match horizontal {
            Horizontal::Left => Alignment::Start,
            Horizontal::Center => Alignment::Center,
            Horizontal::Right => Alignment::End,
        }
    }
}

impl vstd::std_specs::convert::FromSpecImpl<Horizontal> for Alignment {
    open spec fn obeys_from_spec() -> bool {
        true
    }

    open spec fn from_spec(v: Horizontal) -> Self {
        alignment_of_horizontal(v)
    }
}

impl From<Vertical> for Alignment {
    fn from(vertical: Vertical) -> (r: Self) {
        match vertical {
            Vertical::Top => Alignment::Start,
            Vertical::Center => Alignment::Center,
            Vertical::Bottom => Alignment::End,
        }
    }
}

impl vstd::std_specs::convert::FromSpecImpl<Vertical> for Alignment {
    open spec fn obeys_from_spec() -> bool {
        true
    }

    open spec fn from_spec(v: Vertical) -> Self {
        alignment_of_vertical(v)
    }
}

impl From<Alignment> for Horizontal {
    fn from(alignment: Alignment) -> (r: Self) {
        match alignment {
            Alignment::Start => Horizontal::Left,
            Alignment::Center => Horizontal::Center,
            Alignment::End => Horizontal::Right,
        }
    }
}

impl vstd::std_specs::convert::FromSpecImpl<Alignment> for Horizontal {
    open spec fn obeys_from_spec() -> bool {
        true
    }

    open spec fn from_spec(v: Alignment) -> Self {
        horizontal_of_alignment(v)
    }
}

impl From<Alignment> for Vertical {
    fn from(alignment: Alignment) -> (r: Self) {
        match alignment {
            Alignment::Start => Vertical::Top,
            Alignment::Center => Vertical::Center,
            Alignment::End => Vertical::Bottom,
        }
    }
}

impl vstd::std_specs::convert::FromSpecImpl<Alignment> for Vertical {
    open spec fn obeys_from_spec() -> bool {
        true
    }

    open spec fn from_spec(v: Alignment) -> Self {
        vertical_of_alignment(v)
    }
}

/// Resolving to a horizontal alignment agrees with laying the alignment out
/// physically and then converting it; in LTR the logical alignment is the
/// physical one, and converting between alignments and horizontal or
/// vertical ones loses nothing.
pub proof fn law_alignment_resolution(alignment: Alignment, direction: LayoutDirection)
    ensures
        horizontal_in(alignment, direction) == horizontal_of_alignment(
            horizontal_alignment_in(alignment, direction),
        ),
        horizontal_alignment_in(alignment, LayoutDirection::Ltr) == alignment,
        horizontal_alignment_in(horizontal_alignment_in(alignment, direction), direction)
            == alignment,
        alignment_of_horizontal(horizontal_of_alignment(alignment)) == alignment,
        alignment_of_vertical(vertical_of_alignment(alignment)) == alignment,
{
}

} // verus!
