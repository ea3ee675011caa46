//! Drag gesture detection: a press of the drag button, a move of the cursor
//! past the threshold while it is held, and its release make a drag.
//!
//! The detector decides on what the pointer did; where the cursor is, and
//! whether it has moved far enough, is measured by its caller.
use vstd::prelude::*;

verus! {

/// Where a drag gesture stands; `P` is the position where the drag button
/// went down.
#[derive(Debug)]
pub enum DragPhase<P> {
    /// The drag button is not held.
    Idle,
    /// The drag button is held, and the cursor has not yet moved far enough.
    Pending {
        /// Where the drag button went down.
        start: P,
    },
    /// A drag is under way.
    Dragging {
        /// The drag's identifier.
        id: u64,
        /// Where the drag button went down.
        start: P,
    },
}

/// What the pointer did, as a drag detector sees it.
#[derive(Debug)]
pub enum PointerInput<P> {
    /// A mouse button went down at a position; `drag_button` tells whether
    /// it is the button that starts drags.
    Pressed {
        /// Whether the button starts drags.
        drag_button: bool,
        /// Where the cursor was.
        at: P,
    },
    /// The cursor moved; `past_threshold` tells whether it is now at least
    /// the threshold away from where the drag button went down.
    Moved {
        /// Whether the cursor is far enough from the start.
        past_threshold: bool,
    },
    /// A mouse button went up.
    Released {
        /// Whether the button starts drags.
        drag_button: bool,
    },
    /// Any other event.
    Other,
}

/// What a drag detector reports for an input.
#[derive(Debug, Clone, Copy, PartialEq, Eq, Structural)]
pub enum DragSignal {
    /// Nothing to report.
    Nothing,
    /// A drag with the given identifier began.
    Begin(u64),
    /// The cursor moved during a drag.
    Update,
    /// The drag ended with the release of the drag button.
    End,
}

/// The phase a detector moves to on an input; `id` names a drag that the
/// input begins.
pub open spec fn next_phase<P>(phase: DragPhase<P>, input: PointerInput<P>, id: u64) -> DragPhase<P> {
    match input {
        PointerInput::Pressed { drag_button, at } => {
            if drag_button && !(phase is Dragging) {
                DragPhase::Pending { start: at }
            } else {
                phase
            }
        },
        PointerInput::Moved { past_threshold } => match phase {
            DragPhase::Pending { start } => {
                if past_threshold {
                    DragPhase::Dragging { id, start }
                } else {
                    DragPhase::Pending { start }
                }
            },
            _ => phase,
        },
        PointerInput::Released { drag_button } => {
            if drag_button {
                DragPhase::Idle
            } else {
                phase
            }
        },
        PointerInput::Other => phase,
    }
}

/// What a detector in a phase reports for an input; `id` names a drag that
/// the input begins.
pub open spec fn signal_for<P>(phase: DragPhase<P>, input: PointerInput<P>, id: u64) -> DragSignal {
    match input {
        PointerInput::Moved { past_threshold } => match phase {
            DragPhase::Dragging { .. } => DragSignal::Update,
            DragPhase::Pending { .. } => {
                if past_threshold {
                    DragSignal::Begin(id)
                } else {
                    DragSignal::Nothing
                }
            },
            DragPhase::Idle => DragSignal::Nothing,
        },
        PointerInput::Released { drag_button } => {
            if drag_button && phase is Dragging {
                DragSignal::End
            } else {
                DragSignal::Nothing
            }
        },
        _ => DragSignal::Nothing,
    }
}

/// Detects drag gestures from pointer input.
#[derive(Debug)]
pub struct DragDetector<P> {
    phase: DragPhase<P>,
}

impl<P> View for DragDetector<P> {
    type V = DragPhase<P>;

    closed spec fn view(&self) -> DragPhase<P> {
        self.phase
    }
}

impl<P> Default for DragDetector<P> {
    fn default() -> (r: Self)
        ensures
            r@ == DragPhase::<P>::Idle,
    {
        DragDetector { phase: DragPhase::Idle }
    }
}

impl<P> DragDetector<P> {
    /// A detector with no button held.
    pub fn new() -> (r: Self)
        ensures
            r@ == DragPhase::<P>::Idle,
    {
        DragDetector { phase: DragPhase::Idle }
    }

    /// Whether a drag is under way.
    pub fn is_dragging(&self) -> (r: bool)
        ensures
            r == (self@ is Dragging),
    {
        match &self.phase {
            DragPhase::Dragging { .. } => true,
            _ => false,
        }
    }

    /// The identifier of the drag under way, if any.
    pub fn drag_id(&self) -> (r: Option<u64>)
        ensures
            r == (match self@ {
                DragPhase::Dragging { id, .. } => Some(id),
                _ => None,
            }),
    {
        match &self.phase {
            DragPhase::Dragging { id, .. } => Some(*id),
            _ => None,
        }
    }

    /// Where the drag button went down, while the cursor has not yet moved
    /// far enough to begin a drag.
    pub fn pending_start(&self) -> (r: Option<&P>)
        ensures
            r == (match self@ {
                DragPhase::Pending { start } => Some(&start),
                _ => None,
            }),
    {
        match &self.phase {
            DragPhase::Pending { start } => Some(start),
            _ => None,
        }
    }

    /// Whether an input begins a drag: the cursor moves far enough while
    /// the drag button is held and no drag is under way.
    pub fn begins_drag(&self, input: &PointerInput<P>) -> (r: bool)
        ensures
            r == (self@ is Pending && input matches PointerInput::Moved { past_threshold: true }),
    {
        match (&self.phase, input) {
            (DragPhase::Pending { .. }, PointerInput::Moved { past_threshold }) => *past_threshold,
            _ => false,
        }
    }

    /// Takes an input, moves to the next phase and reports what happened;
    /// `fresh_id` names the drag if the input begins one.
    pub fn process(&mut self, input: PointerInput<P>, fresh_id: u64) -> (r: DragSignal)
        ensures
            final(self)@ == next_phase(old(self)@, input, fresh_id),
            r == signal_for(old(self)@, input, fresh_id),
    {
        let mut phase = DragPhase::Idle;
        std::mem::swap(&mut phase, &mut self.phase);
        let (next, signal) = match input {
            PointerInput::Pressed { drag_button, at } => {
                let dragging = match &phase {
                    DragPhase::Dragging { .. } => true,
                    _ => false,
                };
                if drag_button && !dragging {
                    (DragPhase::Pending { start: at }, DragSignal::Nothing)
                } else {
                    (phase, DragSignal::Nothing)
                }
            },
            PointerInput::Moved { past_threshold } => match phase {
                DragPhase::Dragging { id, start } => (
                    DragPhase::Dragging { id, start },
                    DragSignal::Update,
                ),
                DragPhase::Pending { start } => {
                    if past_threshold {
                        (DragPhase::Dragging { id: fresh_id, start }, DragSignal::Begin(fresh_id))
                    } else {
                        (DragPhase::Pending { start }, DragSignal::Nothing)
                    }
                },
                DragPhase::Idle => (DragPhase::Idle, DragSignal::Nothing),
            },
            PointerInput::Released { drag_button } => {
                if drag_button {
                    let signal = match &phase {
                        DragPhase::Dragging { .. } => DragSignal::End,
                        _ => DragSignal::Nothing,
                    };
                    (DragPhase::Idle, signal)
                } else {
                    (phase, DragSignal::Nothing)
                }
            },
            PointerInput::Other => (phase, DragSignal::Nothing),
        };
        self.phase = next;
        signal
    }

    /// Cancels the drag under way; returns whether there was one. The
    /// detector is idle afterwards.
    pub fn cancel(&mut self) -> (r: bool)
        ensures
            r == (old(self)@ is Dragging),
            final(self)@ == DragPhase::<P>::Idle,
    {
        let was_dragging = self.is_dragging();
        self.phase = DragPhase::Idle;
        was_dragging
    }

    /// Completes the drag under way with a drop; returns whether there was
    /// one. The detector is idle afterwards.
    pub fn complete(&mut self) -> (r: bool)
        ensures
            r == (old(self)@ is Dragging),
            final(self)@ == DragPhase::<P>::Idle,
    {
        let was_dragging = self.is_dragging();
        self.phase = DragPhase::Idle;
        was_dragging
    }

    /// Forgets any held button and any drag.
    pub fn reset(&mut self)
        ensures
            final(self)@ == DragPhase::<P>::Idle,
    {
        self.phase = DragPhase::Idle;
    }
}

/// A click is not a drag: when no drag is under way, pressing and releasing
/// the drag button with no move in between reports nothing and leaves the
/// detector idle.
pub proof fn law_click_is_not_a_drag<P>(phase: DragPhase<P>, at: P, id1: u64, id2: u64)
    requires
        !(phase is Dragging),
    ensures
        signal_for(phase, PointerInput::Pressed { drag_button: true, at }, id1) == DragSignal::Nothing,
        signal_for(
            next_phase(phase, PointerInput::Pressed { drag_button: true, at }, id1),
            PointerInput::Released { drag_button: true },
            id2,
        ) == DragSignal::Nothing,
        next_phase(
            next_phase(phase, PointerInput::Pressed { drag_button: true, at }, id1),
            PointerInput::Released { drag_button: true },
            id2,
        ) == DragPhase::<P>::Idle,
{
}

/// A drag begins only from a held drag button, and then is under way with
/// the identifier it reported and the position where the button went down.
pub proof fn law_begin_starts_the_drag<P>(phase: DragPhase<P>, input: PointerInput<P>, id: u64)
    ensures
        signal_for(phase, input, id) is Begin ==> {
            &&& signal_for(phase, input, id) == DragSignal::Begin(id)
            &&& phase matches DragPhase::Pending { start }
            &&& next_phase(phase, input, id) == (DragPhase::Dragging { id, start })
        },
{
}

/// A drag ends only when the drag button is released during it, and the
/// detector is idle afterwards.
pub proof fn law_end_only_after_a_drag<P>(phase: DragPhase<P>, input: PointerInput<P>, id: u64)
    ensures
        signal_for(phase, input, id) == DragSignal::End ==> {
            &&& phase is Dragging
            &&& input matches PointerInput::Released { drag_button: true }
            &&& next_phase(phase, input, id) == DragPhase::<P>::Idle
        },
{
}

/// A drag under way keeps its identifier and start until the drag button is
/// released: any other input leaves it as it is.
pub proof fn law_drag_persists_until_release<P>(phase: DragPhase<P>, input: PointerInput<P>, id: u64)
    requires
        phase is Dragging,
        !(input matches PointerInput::Released { drag_button: true }),
    ensures
        next_phase(phase, input, id) == phase,
{
}

} // verus!
