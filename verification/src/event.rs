//! The status of a processed event.
use vstd::prelude::*;

verus! {

/// The status of an event after being processed.
#[derive(Debug, Clone, Copy, PartialEq, Eq, Structural)]
pub enum Status {
    /// The event was **NOT** handled by any widget.
    Ignored,
    /// The event was handled and processed by a widget.
    Captured,
}

/// `Captured` takes precedence over `Ignored`.
pub open spec fn merged(a: Status, b: Status) -> Status {
    if a == Status::Captured || b == Status::Captured {
        Status::Captured
    } else {
        Status::Ignored
    }
}

impl Status {
    /// Merges two statuses into one: `Captured` takes precedence over `Ignored`.
    pub fn merge(self, b: Self) -> (r: Self)
        ensures
            r == merged(self, b),
    {
        match self {
            Status::Ignored => b,
            Status::Captured => Status::Captured,
        }
    }
}

/// Merging statuses is a join: the order and grouping of merges do not
/// matter, `Ignored` changes nothing and `Captured` is final.
pub proof fn law_merge_is_a_join(a: Status, b: Status, c: Status)
    ensures
        merged(a, b) == merged(b, a),
        merged(merged(a, b), c) == merged(a, merged(b, c)),
        merged(a, Status::Ignored) == a,
        merged(a, Status::Captured) == Status::Captured,
        merged(a, a) == a,
{
}

} // verus!
