//! Drag and drop requests: starting a drag, answering a drag over a window,
//! and asking for the dragged data.
use vstd::prelude::*;

use std::borrow::Cow;
use crate::dnd::{DndAction, DragData, DragIcon};
use crate::window::Id;

verus! {

/// A drag and drop action for the runtime to perform. The result of a drag,
/// or the data asked for, comes back to the task that made the request.
#[derive(Debug)]
pub enum Action {
    /// Start a drag operation.
    StartDrag {
        /// The data to drag.
        data: DragData,
        /// Optional custom icon.
        icon: Option<DragIcon>,
        /// Allowed actions for this drag.
        allowed_actions: DndAction,
    },
    /// Accept a drag at the current position.
    AcceptDrag {
        /// The window accepting the drag.
        window: Id,
        /// MIME types we accept.
        mime_types: Vec<Cow<'static, str>>,
        /// Action we prefer.
        action: DndAction,
    },
    /// Reject the current drag.
    RejectDrag {
        /// The window rejecting the drag.
        window: Id,
    },
    /// Request drag data for a MIME type.
    RequestData {
        /// The window requesting data.
        window: Id,
        /// The MIME type to request.
        mime_type: String,
    },
}

/// Starts a drag and drop operation with the given data, allowing a copy;
/// the request completes with the drop result.
pub fn start_drag(data: DragData, icon: Option<DragIcon>) -> (r: Action)
    ensures
        r == (Action::StartDrag { data, icon, allowed_actions: DndAction::Copy }),
{
    Action::StartDrag { data, icon, allowed_actions: DndAction::Copy }
}

/// Starts a drag and drop operation allowing the given actions; the request
/// completes with the drop result.
pub fn start_drag_with_actions(data: DragData, icon: Option<DragIcon>, allowed_actions: DndAction) -> (r:
    Action)
    ensures
        r == (Action::StartDrag { data, icon, allowed_actions }),
{
    Action::StartDrag { data, icon, allowed_actions }
}

/// Accepts the drag over a window with the given MIME types and preferred
/// action, in answer to the drag entering it.
pub fn accept_drag(window: Id, mime_types: Vec<Cow<'static, str>>, action: DndAction) -> (r: Action)
    ensures
        r == (Action::AcceptDrag { window, mime_types, action }),
{
    Action::AcceptDrag { window, mime_types, action }
}

/// Rejects the current drag over a window: the current position is no
/// valid drop target.
pub fn reject_drag(window: Id) -> (r: Action)
    ensures
        r == (Action::RejectDrag { window }),
{
    Action::RejectDrag { window }
}

/// Requests the dragged data in a MIME type, before the drop; the request
/// completes with the data, if the platform gives it.
pub fn request_data(window: Id, mime_type: String) -> (r: Action)
    ensures
        r == (Action::RequestData { window, mime_type }),
{
    Action::RequestData { window, mime_type }
}

} // verus!
