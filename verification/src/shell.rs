//! A connection to the state of a shell.
use vstd::prelude::*;

use crate::accessibility::NodeId;
use crate::event;
use crate::input_method::InputMethod;
use crate::menu::ContextMenuItem;
use crate::window::{self, redraw_min};

verus! {

/// A request to show a context menu.
#[derive(Debug)]
pub struct ContextMenuRequest<P> {
    /// The position to show the menu at (in window coordinates).
    pub position: P,
    /// The menu items to display.
    pub items: Vec<ContextMenuItem>,
}

/// A connection to the state of a shell.
///
/// A widget can leverage a [`Shell`] to trigger changes in an application,
/// like publishing messages or invalidating the current layout. `P` is the
/// type of window positions and `S` that of text sizes.
#[derive(Debug)]
pub struct Shell<'a, Message, P, S> {
    messages: &'a mut Vec<Message>,
    event_status: event::Status,
    redraw_request: window::RedrawRequest,
    input_method: InputMethod<P, S>,
    is_layout_invalid: bool,
    are_widgets_invalid: bool,
    context_menu_request: Option<ContextMenuRequest<P>>,
    a11y_focus_request: Option<NodeId>,
}

impl<'a, Message, P, S> Shell<'a, Message, P, S> {
    /// The message buffer the shell publishes into.
    pub closed spec fn buffer(&self) -> &'a mut Vec<Message> {
        self.messages
    }

    /// The messages in the buffer.
    pub closed spec fn published(&self) -> Seq<Message> {
        self.messages@
    }

    /// The status of the current event.
    pub closed spec fn status(&self) -> event::Status {
        self.event_status
    }

    /// The pending redraw request.
    pub closed spec fn redraw(&self) -> window::RedrawRequest {
        self.redraw_request
    }

    /// The requested input method.
    pub closed spec fn ime(&self) -> InputMethod<P, S> {
        self.input_method
    }

    /// Whether the layout has been invalidated.
    pub closed spec fn layout_invalid(&self) -> bool {
        self.is_layout_invalid
    }

    /// Whether the widgets have been invalidated.
    pub closed spec fn widgets_invalid(&self) -> bool {
        self.are_widgets_invalid
    }

    /// The pending context menu request.
    pub closed spec fn menu_request(&self) -> Option<ContextMenuRequest<P>> {
        self.context_menu_request
    }

    /// The pending accessibility focus request.
    pub closed spec fn focus_request(&self) -> Option<NodeId> {
        self.a11y_focus_request
    }

    /// Everything but the message buffer is as in `other`.
    pub open spec fn same_state(&self, other: &Self) -> bool {
        &&& self.status() == other.status()
        &&& self.redraw() == other.redraw()
        &&& self.ime() == other.ime()
        &&& self.layout_invalid() == other.layout_invalid()
        &&& self.widgets_invalid() == other.widgets_invalid()
        &&& self.menu_request() == other.menu_request()
        &&& self.focus_request() == other.focus_request()
    }

    /// Creates a new [`Shell`] with the provided buffer of messages: the
    /// event is ignored, no redraw is needed, no input method is open, the
    /// layout and widgets are valid and nothing is requested.
    pub fn new(messages: &'a mut Vec<Message>) -> (r: Self)
        ensures
            *final(r.buffer()) == *final(messages),
            r.published() == old(messages)@,
            r.status() == event::Status::Ignored,
            r.redraw() == window::RedrawRequest::Wait,
            r.ime() is Disabled,
            !r.layout_invalid(),
            !r.widgets_invalid(),
            r.menu_request() is None,
            r.focus_request() is None,
    {
        Shell {
            messages,
            event_status: event::Status::Ignored,
            redraw_request: window::RedrawRequest::Wait,
            input_method: InputMethod::Disabled,
            is_layout_invalid: false,
            are_widgets_invalid: false,
            context_menu_request: None,
            a11y_focus_request: None,
        }
    }

    /// Returns true if the [`Shell`] contains no published messages.
    pub fn is_empty(&self) -> (r: bool)
        ensures
            r == (self.published().len() == 0),
    {
        self.messages.is_empty()
    }

    /// Publish the given `Message` for an application to process it.
    pub fn publish(&mut self, message: Message)
        ensures
            final(self).published() == old(self).published().push(message),
            *final(final(self).buffer()) == *final(old(self).buffer()),
            final(self).same_state(old(self)),
    {
        self.messages.push(message);
    }

    /// Marks the current event as captured. Prevents "event bubbling".
    pub fn capture_event(&mut self)
        ensures
            final(self).status() == event::Status::Captured,
            *final(final(self).buffer()) == *final(old(self).buffer()),
            final(self).published() == old(self).published(),
            final(self).redraw() == old(self).redraw(),
            final(self).ime() == old(self).ime(),
            final(self).layout_invalid() == old(self).layout_invalid(),
            final(self).widgets_invalid() == old(self).widgets_invalid(),
            final(self).menu_request() == old(self).menu_request(),
            final(self).focus_request() == old(self).focus_request(),
    {
        self.event_status = event::Status::Captured;
    }

    /// Returns the current [`event::Status`] of the [`Shell`].
    pub fn event_status(&self) -> (r: event::Status)
        ensures
            r == self.status(),
    {
        self.event_status
    }

    /// Returns whether the current event has been captured.
    pub fn is_event_captured(&self) -> (r: bool)
        ensures
            r == (self.status() == event::Status::Captured),
    {
        self.event_status == event::Status::Captured
    }

    /// Resets the event status to [`event::Status::Ignored`], so that
    /// events simulated in sequence are processed independently.
    pub fn uncapture_event(&mut self)
        ensures
            final(self).status() == event::Status::Ignored,
            *final(final(self).buffer()) == *final(old(self).buffer()),
            final(self).published() == old(self).published(),
            final(self).redraw() == old(self).redraw(),
            final(self).ime() == old(self).ime(),
            final(self).layout_invalid() == old(self).layout_invalid(),
            final(self).widgets_invalid() == old(self).widgets_invalid(),
            final(self).menu_request() == old(self).menu_request(),
            final(self).focus_request() == old(self).focus_request(),
    {
        self.event_status = event::Status::Ignored;
    }

    /// Requests a new frame to be drawn as soon as possible.
    pub fn request_redraw(&mut self)
        ensures
            final(self).redraw() == window::RedrawRequest::NextFrame,
            *final(final(self).buffer()) == *final(old(self).buffer()),
            final(self).published() == old(self).published(),
            final(self).status() == old(self).status(),
            final(self).ime() == old(self).ime(),
            final(self).layout_invalid() == old(self).layout_invalid(),
            final(self).widgets_invalid() == old(self).widgets_invalid(),
            final(self).menu_request() == old(self).menu_request(),
            final(self).focus_request() == old(self).focus_request(),
    {
        self.redraw_request = window::RedrawRequest::NextFrame;
    }

    /// Requests a new frame to be drawn at the given request, keeping the
    /// more urgent of it and the pending one.
    pub fn request_redraw_at(&mut self, redraw_request: window::RedrawRequest)
        ensures
            final(self).redraw() == redraw_min(old(self).redraw(), redraw_request),
            *final(final(self).buffer()) == *final(old(self).buffer()),
            final(self).published() == old(self).published(),
            final(self).status() == old(self).status(),
            final(self).ime() == old(self).ime(),
            final(self).layout_invalid() == old(self).layout_invalid(),
            final(self).widgets_invalid() == old(self).widgets_invalid(),
            final(self).menu_request() == old(self).menu_request(),
            final(self).focus_request() == old(self).focus_request(),
    {
        self.redraw_request = self.redraw_request.min(redraw_request);
    }

    /// Returns the request a redraw should happen, if any.
    pub fn redraw_request(&self) -> (r: window::RedrawRequest)
        ensures
            r == self.redraw(),
    {
        self.redraw_request
    }

    /// Replaces the redraw request of the [`Shell`], without conflict
    /// resolution.
    pub fn replace_redraw_request(shell: &mut Self, redraw_request: window::RedrawRequest)
        ensures
            final(shell).redraw() == redraw_request,
            *final(final(shell).buffer()) == *final(old(shell).buffer()),
            final(shell).published() == old(shell).published(),
            final(shell).status() == old(shell).status(),
            final(shell).ime() == old(shell).ime(),
            final(shell).layout_invalid() == old(shell).layout_invalid(),
            final(shell).widgets_invalid() == old(shell).widgets_invalid(),
            final(shell).menu_request() == old(shell).menu_request(),
            final(shell).focus_request() == old(shell).focus_request(),
    {
        shell.redraw_request = redraw_request;
    }

    /// Returns the current input method strategy.
    pub fn input_method(&self) -> (r: &InputMethod<P, S>)
        ensures
            *r == self.ime(),
    {
        &self.input_method
    }

    /// Returns the current input method strategy, to be changed in place.
    pub fn input_method_mut(&mut self) -> (r: &mut InputMethod<P, S>)
        ensures
            *r == old(self).ime(),
            final(self).ime() == *final(r),
            *final(final(self).buffer()) == *final(old(self).buffer()),
            final(self).published() == old(self).published(),
            final(self).status() == old(self).status(),
            final(self).redraw() == old(self).redraw(),
            final(self).layout_invalid() == old(self).layout_invalid(),
            final(self).widgets_invalid() == old(self).widgets_invalid(),
            final(self).menu_request() == old(self).menu_request(),
            final(self).focus_request() == old(self).focus_request(),
    {
        &mut self.input_method
    }

    /// Returns whether the current layout is invalid or not.
    pub fn is_layout_invalid(&self) -> (r: bool)
        ensures
            r == self.layout_invalid(),
    {
        self.is_layout_invalid
    }

    /// Invalidates the current application layout.
    pub fn invalidate_layout(&mut self)
        ensures
            final(self).layout_invalid(),
            *final(final(self).buffer()) == *final(old(self).buffer()),
            final(self).published() == old(self).published(),
            final(self).status() == old(self).status(),
            final(self).redraw() == old(self).redraw(),
            final(self).ime() == old(self).ime(),
            final(self).widgets_invalid() == old(self).widgets_invalid(),
            final(self).menu_request() == old(self).menu_request(),
            final(self).focus_request() == old(self).focus_request(),
    {
        self.is_layout_invalid = true;
    }

    /// Calls `f` if the layout is invalid, cleaning it in the process.
    pub fn revalidate_layout<F: FnOnce()>(&mut self, f: F)
        requires
            f.requires(()),
        ensures
            !final(self).layout_invalid(),
            old(self).layout_invalid() ==> f.ensures((), ()),
            *final(final(self).buffer()) == *final(old(self).buffer()),
            final(self).published() == old(self).published(),
            final(self).status() == old(self).status(),
            final(self).redraw() == old(self).redraw(),
            final(self).ime() == old(self).ime(),
            final(self).widgets_invalid() == old(self).widgets_invalid(),
            final(self).menu_request() == old(self).menu_request(),
            final(self).focus_request() == old(self).focus_request(),
    {
        if self.is_layout_invalid {
            self.is_layout_invalid = false;
            f();
        }
    }

    /// Returns whether the widgets of the current application have been
    /// invalidated.
    pub fn are_widgets_invalid(&self) -> (r: bool)
        ensures
            r == self.widgets_invalid(),
    {
        self.are_widgets_invalid
    }

    /// Invalidates the current application widgets.
    pub fn invalidate_widgets(&mut self)
        ensures
            final(self).widgets_invalid(),
            *final(final(self).buffer()) == *final(old(self).buffer()),
            final(self).published() == old(self).published(),
            final(self).status() == old(self).status(),
            final(self).redraw() == old(self).redraw(),
            final(self).ime() == old(self).ime(),
            final(self).layout_invalid() == old(self).layout_invalid(),
            final(self).menu_request() == old(self).menu_request(),
            final(self).focus_request() == old(self).focus_request(),
    {
        self.are_widgets_invalid = true;
    }

    /// Requests a native context menu to be shown at the given position.
    pub fn request_context_menu(&mut self, position: P, items: Vec<ContextMenuItem>)
        ensures
            final(self).menu_request() == Some(ContextMenuRequest { position, items }),
            *final(final(self).buffer()) == *final(old(self).buffer()),
            final(self).published() == old(self).published(),
            final(self).status() == old(self).status(),
            final(self).redraw() == old(self).redraw(),
            final(self).ime() == old(self).ime(),
            final(self).layout_invalid() == old(self).layout_invalid(),
            final(self).widgets_invalid() == old(self).widgets_invalid(),
            final(self).focus_request() == old(self).focus_request(),
    {
        self.context_menu_request = Some(ContextMenuRequest { position, items });
    }

    /// Takes the pending context menu request, if any, leaving none.
    pub fn take_context_menu_request(&mut self) -> (r: Option<ContextMenuRequest<P>>)
        ensures
            r == old(self).menu_request(),
            final(self).menu_request() is None,
            *final(final(self).buffer()) == *final(old(self).buffer()),
            final(self).published() == old(self).published(),
            final(self).status() == old(self).status(),
            final(self).redraw() == old(self).redraw(),
            final(self).ime() == old(self).ime(),
            final(self).layout_invalid() == old(self).layout_invalid(),
            final(self).widgets_invalid() == old(self).widgets_invalid(),
            final(self).focus_request() == old(self).focus_request(),
    {
        self.context_menu_request.take()
    }

    /// Requests programmatic accessibility focus to move to the given node.
    pub fn request_a11y_focus(&mut self, target: NodeId)
        ensures
            final(self).focus_request() == Some(target),
            *final(final(self).buffer()) == *final(old(self).buffer()),
            final(self).published() == old(self).published(),
            final(self).status() == old(self).status(),
            final(self).redraw() == old(self).redraw(),
            final(self).ime() == old(self).ime(),
            final(self).layout_invalid() == old(self).layout_invalid(),
            final(self).widgets_invalid() == old(self).widgets_invalid(),
            final(self).menu_request() == old(self).menu_request(),
    {
        self.a11y_focus_request = Some(target);
    }

    /// Takes the pending accessibility focus request, if any, leaving none.
    pub fn take_a11y_focus_request(&mut self) -> (r: Option<NodeId>)
        ensures
            r == old(self).focus_request(),
            final(self).focus_request() is None,
            *final(final(self).buffer()) == *final(old(self).buffer()),
            final(self).published() == old(self).published(),
            final(self).status() == old(self).status(),
            final(self).redraw() == old(self).redraw(),
            final(self).ime() == old(self).ime(),
            final(self).layout_invalid() == old(self).layout_invalid(),
            final(self).widgets_invalid() == old(self).widgets_invalid(),
            final(self).menu_request() == old(self).menu_request(),
    {
        self.a11y_focus_request.take()
    }

    /// Returns whether there is a pending context menu request.
    pub fn has_context_menu_request(&self) -> (r: bool)
        ensures
            r == self.menu_request() is Some,
    {
        self.context_menu_request.is_some()
    }
}

/// Appends `f` of each item of `items`, in order, to `dest`.
fn extend_mapped<B, M, F: Fn(B) -> M>(dest: &mut Vec<M>, items: Vec<B>, f: F)
    requires
        forall|b: B| #[trigger] f.requires((b,)),
    ensures
        final(dest)@.len() == old(dest)@.len() + items@.len(),
        forall|i: int| 0 <= i < old(dest)@.len() ==> #[trigger] final(dest)@[i] == old(dest)@[i],
        forall|j: int|
            0 <= j < items@.len() ==> f.ensures(
                (items@[j],),
                #[trigger] final(dest)@[old(dest)@.len() + j],
            ),
{
    let ghost start = dest@;
    let ghost incoming = items@;
    let mut taken = items;
    let mut remaining: Vec<B> = Vec::new();
    while taken.len() > 0
        invariant
            taken@ == incoming.take(taken@.len() as int),
            incoming.len() == taken@.len() + remaining@.len(),
            forall|k: int|
                0 <= k < remaining@.len() ==> #[trigger] remaining@[k] == incoming[incoming.len()
                    - 1 - k],
        decreases taken@.len(),
    {
        let b = taken.pop().unwrap();
        remaining.push(b);
    }
    while remaining.len() > 0
        invariant
            forall|b: B| #[trigger] f.requires((b,)),
            incoming.len() == dest@.len() - start.len() + remaining@.len(),
            dest@.len() >= start.len(),
            forall|i: int| 0 <= i < start.len() ==> #[trigger] dest@[i] == start[i],
            forall|j: int|
                0 <= j < dest@.len() - start.len() ==> f.ensures(
                    (incoming[j],),
                    #[trigger] dest@[start.len() + j],
                ),
            forall|k: int|
                0 <= k < remaining@.len() ==> #[trigger] remaining@[k] == incoming[incoming.len()
                    - 1 - k],
        decreases remaining@.len(),
    {
        let b = remaining.pop().unwrap();
        let m = f(b);
        dest.push(m);
    }
}

impl<'a, Message, P: Copy, S: Copy> Shell<'a, Message, P, S> {
    /// Requests the given input method strategy, merged into the pending
    /// one: an open input method stays, a disabled one takes `ime`.
    pub fn request_input_method(&mut self, ime: &InputMethod<P, S>)
        ensures
            final(self).ime() == (if old(self).ime() is Enabled {
                old(self).ime()
            } else {
                *ime
            }),
            *final(final(self).buffer()) == *final(old(self).buffer()),
            final(self).published() == old(self).published(),
            final(self).status() == old(self).status(),
            final(self).redraw() == old(self).redraw(),
            final(self).layout_invalid() == old(self).layout_invalid(),
            final(self).widgets_invalid() == old(self).widgets_invalid(),
            final(self).menu_request() == old(self).menu_request(),
            final(self).focus_request() == old(self).focus_request(),
    {
        self.input_method.merge(ime);
    }

    /// Merges the current [`Shell`] with another one, publishing `f` of each
    /// of the latter's messages, in order, and draining its buffer.
    ///
    /// Invalidation of layout or widgets in either shell stays, the more
    /// urgent redraw request is kept, the event is captured if either shell
    /// captured it, the input method is merged, and a context menu or
    /// accessibility focus request of `other` replaces this shell's.
    pub fn merge<B, F: Fn(B) -> Message>(&mut self, other: Shell<'_, B, P, S>, f: F)
        requires
            forall|b: B| #[trigger] f.requires((b,)),
        ensures
            final(self).published().len() == old(self).published().len()
                + other.published().len(),
            forall|i: int|
                0 <= i < old(self).published().len() ==> #[trigger] final(self).published()[i]
                    == old(self).published()[i],
            forall|j: int|
                0 <= j < other.published().len() ==> f.ensures(
                    (other.published()[j],),
                    #[trigger] final(self).published()[old(self).published().len() + j],
                ),
            (*final(other.buffer()))@ == Seq::<B>::empty(),
            *final(final(self).buffer()) == *final(old(self).buffer()),
            final(self).layout_invalid() == (old(self).layout_invalid() || other.layout_invalid()),
            final(self).widgets_invalid() == (old(self).widgets_invalid()
                || other.widgets_invalid()),
            final(self).redraw() == redraw_min(old(self).redraw(), other.redraw()),
            final(self).status() == event::merged(old(self).status(), other.status()),
            final(self).ime() == (if old(self).ime() is Enabled {
                old(self).ime()
            } else {
                other.ime()
            }),
            final(self).menu_request() == (if other.menu_request() is Some {
                other.menu_request()
            } else {
                old(self).menu_request()
            }),
            final(self).focus_request() == (if other.focus_request() is Some {
                other.focus_request()
            } else {
                old(self).focus_request()
            }),
    {
        let Shell {
            messages: other_messages,
            event_status: other_status,
            redraw_request: other_redraw,
            input_method: other_ime,
            is_layout_invalid: other_layout,
            are_widgets_invalid: other_widgets,
            context_menu_request: other_menu,
            a11y_focus_request: other_focus,
        } = other;
        let mut taken: Vec<B> = Vec::new();
        std::mem::swap(other_messages, &mut taken);
        extend_mapped(self.messages, taken, f);
        self.is_layout_invalid = self.is_layout_invalid || other_layout;
        self.are_widgets_invalid = self.are_widgets_invalid || other_widgets;
        self.redraw_request = self.redraw_request.min(other_redraw);
        self.event_status = self.event_status.merge(other_status);
        self.input_method.merge(&other_ime);
        if other_menu.is_some() {
            self.context_menu_request = other_menu;
        }
        if other_focus.is_some() {
            self.a11y_focus_request = other_focus;
        }
    }
}

} // verus!
