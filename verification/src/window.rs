//! Windows.
use vstd::prelude::*;

verus! {

/// The identifier of a window.
#[derive(Debug, Clone, Copy, PartialEq, Eq, PartialOrd, Ord, Hash, Structural)]
pub struct Id(pub u64);

/// A request to redraw a window.
///
/// An instant is given as a count of ticks of a monotonic clock; the caller
/// chooses the clock and its origin and uses the same one throughout.
#[derive(Debug, Clone, Copy, PartialEq, Eq, Hash, Structural)]
pub enum RedrawRequest {
    /// Redraw the next frame.
    NextFrame,
    /// Redraw at the given instant.
    At(u64),
    /// No redraw is needed.
    Wait,
}

/// The order of redraw requests by urgency: the next frame first, then
/// instants in time order, then waiting.
pub open spec fn redraw_le(a: RedrawRequest, b: RedrawRequest) -> bool {
    match (a, b) {
        (RedrawRequest::NextFrame, _) => true,
        (RedrawRequest::At(_), RedrawRequest::NextFrame) => false,
        (RedrawRequest::At(x), RedrawRequest::At(y)) => x <= y,
        (RedrawRequest::At(_), RedrawRequest::Wait) => true,
        (RedrawRequest::Wait, RedrawRequest::Wait) => true,
        (RedrawRequest::Wait, _) => false,
    }
}

/// The more urgent of two redraw requests.
pub open spec fn redraw_min(a: RedrawRequest, b: RedrawRequest) -> RedrawRequest {
    if redraw_le(a, b) {
        a
    } else {
        b
    }
}

impl RedrawRequest {
    /// Returns the more urgent of the two requests: the next frame before any
    /// instant, an earlier instant before a later one, any instant before
    /// waiting.
    pub fn min(self, other: Self) -> (r: Self)
        ensures
            r == redraw_min(self, other),
    {
        let self_first = match (self, other) {
            (RedrawRequest::NextFrame, _) => true,
            (RedrawRequest::At(_), RedrawRequest::NextFrame) => false,
            (RedrawRequest::At(x), RedrawRequest::At(y)) => x <= y,
            (RedrawRequest::At(_), RedrawRequest::Wait) => true,
            (RedrawRequest::Wait, RedrawRequest::Wait) => true,
            (RedrawRequest::Wait, _) => false,
        };
        if self_first {
            self
        } else {
            other
        }
    }
}

/// `redraw_le` is a total order, so `redraw_min` picks the more urgent
/// request whichever comes first, and picking the minimum repeatedly
/// does not depend on grouping.
pub proof fn law_redraw_min_order(a: RedrawRequest, b: RedrawRequest, c: RedrawRequest)
    ensures
        redraw_le(a, a),
        redraw_le(a, b) || redraw_le(b, a),
        redraw_le(a, b) && redraw_le(b, a) ==> a == b,
        redraw_le(a, b) && redraw_le(b, c) ==> redraw_le(a, c),
        redraw_min(a, b) == redraw_min(b, a),
        redraw_min(redraw_min(a, b), c) == redraw_min(a, redraw_min(b, c)),
        redraw_le(redraw_min(a, b), a) && redraw_le(redraw_min(a, b), b),
{
}

} // verus!
