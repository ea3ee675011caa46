//! Widget identifiers and the operations that run over a widget tree.
use vstd::prelude::*;

pub mod operation;

verus! {

/// The identifier of a widget.
///
/// Widgets are told apart by a numeric key; two widgets with the same key
/// are the same widget as far as operations are concerned.
#[derive(Debug, Clone, Copy, PartialEq, Eq, Hash, Structural)]
pub struct Id(pub u64);

impl Id {
    /// Creates an [`Id`] from its numeric key.
    pub fn new(key: u64) -> (r: Self)
        ensures r.0 == key,
    {
        Id(key)
    }
}

} // verus!
