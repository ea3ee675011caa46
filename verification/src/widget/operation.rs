//! Operations that query or change the state of widgets, expressed over the
//! sequence of widgets that a traversal of the widget tree visits.
use vstd::prelude::*;

pub mod accessibility;
pub mod focusable;

verus! {
} // verus!
