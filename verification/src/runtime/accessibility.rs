//! Accessibility requests: announcements read aloud by screen readers, and
//! moving the screen reader's focus.
use vstd::prelude::*;

use crate::accessibility::NodeId;

verus! {

/// The priority/urgency of an accessibility announcement.
#[derive(Debug, Clone, Copy, PartialEq, Eq, Hash, Structural)]
pub enum Priority {
    /// The announcement waits until the screen reader is idle; for
    /// non-urgent status updates.
    Polite,
    /// The announcement interrupts whatever the screen reader is saying; for
    /// urgent messages like errors.
    Assertive,
}

impl Default for Priority {
    fn default() -> (r: Self)
        ensures
            r == Priority::Polite,
    {
        Priority::Polite
    }
}

/// An accessibility action that can be performed by the runtime.
#[derive(Debug)]
pub enum Action {
    /// Announce a message to screen readers.
    Announce {
        /// The message to announce.
        message: String,
        /// The priority of the announcement.
        priority: Priority,
    },
    /// Request focus on an accessible element.
    Focus {
        /// The target node ID to focus.
        target: NodeId,
    },
}

/// Announces a message to screen readers, through a live region that they
/// read aloud, waiting for the reader to be idle or interrupting it as the
/// priority says.
pub fn announce(message: String, priority: Priority) -> (r: Action)
    ensures
        r == (Action::Announce { message, priority }),
{
    Action::Announce { message, priority }
}

/// Moves the screen reader's focus to the element with the given node ID.
pub fn focus(target: NodeId) -> (r: Action)
    ensures
        r == (Action::Focus { target }),
{
    Action::Focus { target }
}

} // verus!
