//! The windowing shell's decisions: how accessibility adapter events and
//! control requests are handled, when the user forces the program to quit,
//! and how Wayland drag and drop events become window events.
use vstd::prelude::*;

pub mod drag_detector;

use crate::accessibility::NodeId;
use crate::clipboard::Platform;
use crate::dnd::{DndAction, DropResult};
use crate::keyboard::{Key, Modifiers, LOGO_BIT};
use crate::runtime::accessibility::Priority;
use crate::text::{decimal, push_decimal};
use vstd::string::StringExecFns;
use crate::menu::{be_bytes_u32, be_bytes_u64, be_u32, be_u64, AppMenu, MenuId, MenuKind, MenuNode, MenuShortcut};
#[allow(unused_imports)]
use vstd::string::StringSliceAdditionalSpecFns;
use std::collections::hash_map::DefaultHasher;
use std::hash::Hasher;
use vstd::utf8::encode_utf8;
use vstd::std_specs::hash::DefaultHasherAdditionalSpecFns;

verus! {

// ============================================================================
// Accessibility adapter
// ============================================================================

/// The result of processing an accessibility adapter event; `E` is the
/// action request of an assistive technology.
#[derive(Debug)]
pub enum ProcessedEvent<E> {
    /// Accessibility was activated (screen reader connected).
    Activated,
    /// Initial tree was requested: send the full tree.
    InitialTreeRequested,
    /// An action was requested on a node.
    ActionRequested(E),
    /// Accessibility was deactivated.
    Deactivated,
}

impl<E> ProcessedEvent<E> {
    /// Returns the action request, if this is one.
    pub fn into_event(self) -> (r: Option<E>)
        ensures
            r == (match self {
                ProcessedEvent::ActionRequested(e) => Some(e),
                _ => None,
            }),
    {
        match self {
            ProcessedEvent::ActionRequested(event) => Some(event),
            _ => None,
        }
    }
}

/// The root node of a window's accessibility tree.
pub open spec fn root_id() -> NodeId {
    NodeId(0)
}

/// Whether accessibility is enabled for a window's adapter.
#[derive(Debug, Clone, Copy, PartialEq, Eq, Structural)]
pub struct AdapterState {
    /// Whether a screen reader is connected.
    pub enabled: bool,
}

impl AdapterState {
    /// A new adapter: accessibility starts disabled.
    pub fn new() -> (r: Self)
        ensures
            !r.enabled,
    {
        AdapterState { enabled: false }
    }

    /// Called when accessibility is activated (screen reader connected).
    pub fn activate(&mut self)
        ensures
            final(self).enabled,
    {
        self.enabled = true;
    }

    /// Called when accessibility is deactivated.
    pub fn deactivate(&mut self)
        ensures
            !final(self).enabled,
    {
        self.enabled = false;
    }

    /// Returns whether accessibility is currently enabled.
    pub fn is_enabled(&self) -> (r: bool)
        ensures
            r == self.enabled,
    {
        self.enabled
    }

    /// Takes note of a drained event: activation enables accessibility,
    /// deactivation disables it, and other events leave it as it is.
    pub fn observe<E>(&mut self, event: &ProcessedEvent<E>)
        ensures
            final(self).enabled == (match *event {
                ProcessedEvent::Activated => true,
                ProcessedEvent::Deactivated => false,
                _ => old(self).enabled,
            }),
    {
        match event {
            ProcessedEvent::Activated => self.activate(),
            ProcessedEvent::Deactivated => self.deactivate(),
            _ => {},
        }
    }

    /// The node a full tree update focuses, when accessibility is enabled:
    /// the given focus, or the window's root; no update is sent otherwise.
    pub fn tree_update_focus(&self, focus: Option<NodeId>) -> (r: Option<NodeId>)
        ensures
            r == (if self.enabled {
                Some(
                    match focus {
                        Some(f) => f,
                        None => root_id(),
                    },
                )
            } else {
                None
            }),
    {
        if !self.enabled {
            return None;
        }
        match focus {
            Some(f) => Some(f),
            None => Some(NodeId(0)),
        }
    }
}

// ============================================================================
// The window's accessibility tree
// ============================================================================

/// The node that reads announcements aloud.
pub open spec fn announcer_id() -> NodeId {
    NodeId(1)
}

/// How a live region is read when it changes.
#[derive(Debug, Clone, Copy, PartialEq, Eq, Hash, Structural)]
pub enum Live {
    /// Not read.
    Off,
    /// Read when the screen reader is idle.
    Polite,
    /// Read at once, interrupting.
    Assertive,
}

/// The announcer node of a tree update: its label, if it announces
/// something, and how it is read.
#[derive(Debug, PartialEq, Eq)]
pub struct Announcer {
    /// The text read aloud.
    pub label: Option<String>,
    /// How it is read.
    pub live: Live,
}

/// What a window's accessibility tree announces and focuses between
/// updates.
#[derive(Debug)]
pub struct TreeAnnouncer {
    /// The announcement to read at the next update.
    pub pending_announcement: Option<(String, Priority)>,
    /// The serial of the last announcement, which makes repeated messages
    /// differ.
    pub announcement_serial: u64,
    /// A node the program asked to focus, for the next update.
    pub focus_override: Option<NodeId>,
    /// The node focused at the last update.
    pub last_focused: Option<NodeId>,
}

/// How an announcement of a priority is read.
pub open spec fn live_for(priority: Priority) -> Live {
    match priority {
        Priority::Polite => Live::Polite,
        Priority::Assertive => Live::Assertive,
    }
}

/// The text read for an announcement with a serial: the message, then the
/// serial in brackets, so that a repeated message still changes the node.
pub open spec fn serial_label(message: Seq<char>, serial: u64) -> Seq<char> {
    message + " ("@ + decimal(serial as nat) + ")"@
}

/// What is read when a node gains focus: its role, then its label and its
/// value when it has them (an empty value counts as none).
pub open spec fn focus_text(role: Seq<char>, label: Option<Seq<char>>, value: Option<Seq<char>>) -> Seq<char> {
    match (label, value) {
        (Some(l), Some(v)) if v.len() > 0 => role + ": "@ + l + ", "@ + v,
        (Some(l), _) => role + ": "@ + l,
        (None, Some(v)) if v.len() > 0 => role + ": "@ + v,
        _ => role,
    }
}

fn labelled(message: &str, serial: u64) -> (r: String)
    ensures
        r@ == serial_label(message@, serial),
{
    let mut s = String::from_str(message).concat(" (");
    push_decimal(&mut s, serial);
    s.concat(")")
}

/// Builds what is read when a node gains focus, from its role's name and
/// its label and value.
pub fn focus_announcement(role: &str, label: Option<&str>, value: Option<&str>) -> (r: String)
    ensures
        r@ == focus_text(
            role@,
            match label {
                Some(l) => Some(l@),
                None => None,
            },
            match value {
                Some(v) => Some(v@),
                None => None,
            },
        ),
{
    match (label, value) {
        (Some(l), Some(v)) => {
            if !v.is_empty() {
                String::from_str(role).concat(": ").concat(l).concat(", ").concat(v)
            } else {
                String::from_str(role).concat(": ").concat(l)
            }
        },
        (Some(l), None) => String::from_str(role).concat(": ").concat(l),
        (None, Some(v)) => {
            if !v.is_empty() {
                String::from_str(role).concat(": ").concat(v)
            } else {
                String::from_str(role)
            }
        },
        (None, None) => String::from_str(role),
    }
}

impl TreeAnnouncer {
    /// Nothing announced, no serial yet, nothing focused.
    pub fn new() -> (r: Self)
        ensures
            r.pending_announcement is None,
            r.announcement_serial == 0,
            r.focus_override is None,
            r.last_focused is None,
    {
        TreeAnnouncer {
            pending_announcement: None,
            announcement_serial: 0,
            focus_override: None,
            last_focused: None,
        }
    }

    /// The announcer of the next tree update: a pending announcement is
    /// taken and read as the priority says, under the next serial; without
    /// one the announcer is silent.
    pub fn take_announcer(&mut self) -> (r: Announcer)
        ensures
            final(self).pending_announcement is None,
            final(self).focus_override == old(self).focus_override,
            final(self).last_focused == old(self).last_focused,
            match old(self).pending_announcement {
                None => r.label is None && r.live == Live::Off && final(self).announcement_serial
                    == old(self).announcement_serial,
                Some((message, priority)) => final(self).announcement_serial == old(self).announcement_serial.wrapping_add(1) && r.live == live_for(priority) && (r.label matches Some(l) && l@ == serial_label(
                    message@,
                    final(self).announcement_serial,
                )),
            },
    {
        match self.pending_announcement.take() {
            None => Announcer { label: None, live: Live::Off },
            Some((message, priority)) => {
                self.announcement_serial = self.announcement_serial.wrapping_add(1);
                let label = labelled(message.as_str(), self.announcement_serial);
                let live = match priority {
                    Priority::Polite => Live::Polite,
                    Priority::Assertive => Live::Assertive,
                };
                Announcer { label: Some(label), live }
            },
        }
    }

    /// The focus of the next tree update: a node the program asked to focus,
    /// which is then forgotten, else the focused widget's node.
    pub fn take_focus(&mut self, widget_focus: Option<NodeId>) -> (r: Option<NodeId>)
        ensures
            r == (if old(self).focus_override is Some {
                old(self).focus_override
            } else {
                widget_focus
            }),
            final(self).focus_override is None,
            final(self).pending_announcement == old(self).pending_announcement,
            final(self).announcement_serial == old(self).announcement_serial,
            final(self).last_focused == old(self).last_focused,
    {
        match self.focus_override.take() {
            Some(n) => Some(n),
            None => widget_focus,
        }
    }

    /// Announces a change of focus: when the focus differs from the last
    /// update's, it is remembered, and when the new node's role, label and
    /// value are known, the announcer reads them politely under the next
    /// serial. `focused` describes the node `focus` names, if it was found.
    pub fn announce_focus_change(
        &mut self,
        focus: Option<NodeId>,
        focused: Option<(String, Option<String>, Option<String>)>,
        announcer: &mut Announcer,
    )
        ensures
            final(self).last_focused == focus,
            final(self).pending_announcement == old(self).pending_announcement,
            final(self).focus_override == old(self).focus_override,
            (old(self).last_focused == focus || focus is None || focused is None) ==> final(self).announcement_serial == old(self).announcement_serial && *final(announcer) == *old(announcer),
            (old(self).last_focused != focus && focus is Some && focused is Some) ==> ({
                let (role, label, value) = focused->0;
                &&& final(self).announcement_serial == old(self).announcement_serial.wrapping_add(1)
                &&& final(announcer).live == Live::Polite
                &&& final(announcer).label matches Some(l) && l@ == serial_label(
                    focus_text(
                        role@,
                        match label {
                            Some(x) => Some(x@),
                            None => None,
                        },
                        match value {
                            Some(x) => Some(x@),
                            None => None,
                        },
                    ),
                    final(self).announcement_serial,
                )
            }),
    {
        if crate::accessibility::same_node(focus, self.last_focused) {
            return ;
        }
        self.last_focused = focus;
        if focus.is_none() {
            return ;
        }
        if let Some((role, label, value)) = focused {
            let label_ref: Option<&str> = match &label {
                Some(x) => Some(x.as_str()),
                None => None,
            };
            let value_ref: Option<&str> = match &value {
                Some(x) => Some(x.as_str()),
                None => None,
            };
            let text = focus_announcement(role.as_str(), label_ref, value_ref);
            self.announcement_serial = self.announcement_serial.wrapping_add(1);
            announcer.label = Some(labelled(text.as_str(), self.announcement_serial));
            announcer.live = Live::Polite;
        }
    }
}

/// The children of a window's root node: the announcer, then the collected
/// nodes in order.
pub fn root_children(nodes: &[NodeId]) -> (r: Vec<NodeId>)
    ensures
        r@ == seq![announcer_id()] + nodes@,
{
    let mut children: Vec<NodeId> = Vec::new();
    children.push(NodeId(1));
    let mut i: usize = 0;
    while i < nodes.len()
        invariant
            i <= nodes@.len(),
            children@ == seq![announcer_id()] + nodes@.take(i as int),
        decreases nodes@.len() - i,
    {
        children.push(nodes[i]);
        i = i + 1;
        assert(children@ =~= seq![announcer_id()] + nodes@.take(i as int));
    }
    assert(nodes@.take(nodes@.len() as int) =~= nodes@);
    children
}

// ============================================================================
// Quitting
// ============================================================================

/// Whether a key event forces the program to quit: on macOS, pressing `q`
/// with the command key; never elsewhere.
pub open spec fn forces_quit(platform: Platform, key: Key, pressed: bool, modifiers: Modifiers) -> bool {
    &&& platform == Platform::MacOs
    &&& pressed
    &&& key matches Key::Character(c) && c@ == "q"@
    &&& modifiers.bits & LOGO_BIT != 0
}

/// Returns true if the key event should cause the program to exit.
pub fn user_force_quit(platform: Platform, key: &Key, pressed: bool, modifiers: Modifiers) -> (r: bool)
    ensures
        r == forces_quit(platform, *key, pressed, modifiers),
{
    if platform != Platform::MacOs || !pressed || modifiers.bits & LOGO_BIT == 0 {
        return false;
    }
    match key {
        Key::Character(c) => crate::text::str_eq(c.as_str(), "q"),
        _ => false,
    }
}

// ============================================================================
// Control flow of the event loop
// ============================================================================

/// How the event loop waits; instants are ticks of a monotonic clock.
#[derive(Debug, Clone, Copy, PartialEq, Eq, Hash, Structural)]
pub enum ControlFlow {
    /// Run again at once.
    Poll,
    /// Wait for the next event.
    Wait,
    /// Wait for the next event, at most until the instant.
    WaitUntil(u64),
}

/// The control flow after a request to change it: an earlier deadline
/// stays when a later one is requested, and a deadline still in the future
/// stays when waiting without one is requested; any other request is taken.
pub open spec fn next_control_flow(current: ControlFlow, requested: ControlFlow, now: u64) -> ControlFlow {
    match (current, requested) {
        (ControlFlow::WaitUntil(c), ControlFlow::WaitUntil(n)) if c < n => current,
        (ControlFlow::WaitUntil(t), ControlFlow::Wait) if t > now => current,
        _ => requested,
    }
}

/// Resolves a request to change how the event loop waits.
pub fn resolve_control_flow(current: ControlFlow, requested: ControlFlow, now: u64) -> (r: ControlFlow)
    ensures
        r == next_control_flow(current, requested, now),
{
    match (current, requested) {
        (ControlFlow::WaitUntil(c), ControlFlow::WaitUntil(n)) if c < n => current,
        (ControlFlow::WaitUntil(t), ControlFlow::Wait) if t > now => current,
        _ => requested,
    }
}

/// Of two deadlines, the earlier one wins, whichever was set first.
pub proof fn law_earliest_deadline_wins(current: u64, requested: u64, now: u64)
    ensures
        next_control_flow(ControlFlow::WaitUntil(current), ControlFlow::WaitUntil(requested), now)
            == ControlFlow::WaitUntil(if current <= requested { current } else { requested }),
{
}

/// A request either is taken or leaves the control flow as it was, and
/// requesting the current control flow changes nothing.
pub proof fn law_control_flow_keeps_or_takes(current: ControlFlow, requested: ControlFlow, now: u64)
    ensures
        next_control_flow(current, requested, now) == current || next_control_flow(
            current,
            requested,
            now,
        ) == requested,
        next_control_flow(current, current, now) == current,
{
}

/// A request from the running program to the event loop; `W` describes a
/// window to create and `E` is an error.
#[derive(Debug)]
pub enum Control<W, E> {
    /// Change how the event loop waits.
    ChangeFlow(ControlFlow),
    /// Exit the event loop.
    Exit,
    /// The program failed.
    Crash(E),
    /// Create a window.
    CreateWindow(W),
    /// Allow or forbid automatic window tabbing (macOS).
    SetAutomaticWindowTabbing(bool),
    /// Replace the native application menu (macOS).
    SetApplicationMenu(Option<AppMenu<MenuId>>),
}

/// What the event loop does after polling the running program once.
#[derive(Debug)]
pub enum RunnerStep<W, E> {
    /// The program waits for an event: stop polling.
    Idle,
    /// The program finished: exit the event loop and stop polling.
    Finished,
    /// Wait as given, and keep polling.
    SetControlFlow(ControlFlow),
    /// Create the window, tell the program it was created, and keep polling.
    CreateWindow(W),
    /// Tell the program it exits, then exit the event loop and stop polling.
    Exit,
    /// Keep the error and exit the event loop, and keep polling.
    Crash(E),
    /// Allow or forbid automatic window tabbing, and keep polling.
    SetAutomaticWindowTabbing(bool),
    /// Sync the native application menu with this one, and keep polling.
    SyncApplicationMenu(AppMenu<MenuId>),
    /// Nothing to do: keep polling.
    Continue,
}

impl<W, E> RunnerStep<W, E> {
    /// Whether the event loop polls the program again after this step.
    pub open spec fn keeps_polling(self) -> bool {
        !(self is Idle || self is Finished || self is Exit)
    }

    /// Whether the event loop polls the program again after this step.
    pub fn polls_again(&self) -> (r: bool)
        ensures
            r == self.keeps_polling(),
    {
        !matches!(self, RunnerStep::Idle | RunnerStep::Finished | RunnerStep::Exit)
    }
}

/// Decides the event loop's next step from one poll of the running program:
/// whether it finished, and else the control request it left, if any.
/// Automatic window tabbing is only set on macOS, and the application menu
/// is only synced there when the native menu exists and a menu was given.
pub fn next_runner_step<W, E>(
    finished: bool,
    control: Option<Control<W, E>>,
    current: ControlFlow,
    now: u64,
    platform: Platform,
    has_native_menu: bool,
) -> (r: RunnerStep<W, E>)
    ensures
        finished ==> r is Finished,
        !finished ==> match control {
            None => r is Idle,
            Some(Control::ChangeFlow(flow)) => r == RunnerStep::<W, E>::SetControlFlow(
                next_control_flow(current, flow, now),
            ),
            Some(Control::Exit) => r is Exit,
            Some(Control::Crash(e)) => r == RunnerStep::<W, E>::Crash(e),
            Some(Control::CreateWindow(w)) => r == RunnerStep::<W, E>::CreateWindow(w),
            Some(Control::SetAutomaticWindowTabbing(enabled)) => if platform == Platform::MacOs {
                r == RunnerStep::<W, E>::SetAutomaticWindowTabbing(enabled)
            } else {
                r is Continue
            },
            Some(Control::SetApplicationMenu(menu)) => if platform == Platform::MacOs
                && has_native_menu && menu is Some {
                r == RunnerStep::<W, E>::SyncApplicationMenu(menu->0)
            } else {
                r is Continue
            },
        },
{
    if finished {
        return RunnerStep::Finished;
    }
    match control {
        None => RunnerStep::Idle,
        Some(Control::ChangeFlow(flow)) => RunnerStep::SetControlFlow(
            resolve_control_flow(current, flow, now),
        ),
        Some(Control::Exit) => RunnerStep::Exit,
        Some(Control::Crash(e)) => RunnerStep::Crash(e),
        Some(Control::CreateWindow(w)) => RunnerStep::CreateWindow(w),
        Some(Control::SetAutomaticWindowTabbing(enabled)) => {
            if platform == Platform::MacOs {
                RunnerStep::SetAutomaticWindowTabbing(enabled)
            } else {
                RunnerStep::Continue
            }
        },
        Some(Control::SetApplicationMenu(menu)) => {
            if platform == Platform::MacOs && has_native_menu {
                match menu {
                    Some(m) => RunnerStep::SyncApplicationMenu(m),
                    None => RunnerStep::Continue,
                }
            } else {
                RunnerStep::Continue
            }
        },
    }
}

/// On Windows the event loop does not resume while a window is moved or
/// resized, so a wake-up is emulated after each such event.
pub fn emulates_wake_up(platform: Platform, moved_or_resized: bool) -> (r: bool)
    ensures
        r == (platform == Platform::Windows && moved_or_resized),
{
    platform == Platform::Windows && moved_or_resized
}

// ============================================================================
// Wayland drag and drop
// ============================================================================

/// The Wayland copy action bit.
pub const WL_COPY: u32 = 1;

/// The Wayland move action bit.
pub const WL_MOVE: u32 = 2;

/// The Wayland ask action bit.
pub const WL_ASK: u32 = 4;

/// The Wayland actions of a drag action: Wayland has no link, so a link is
/// no action.
pub open spec fn wayland_bits(action: DndAction) -> u32 {
    match action {
        DndAction::NoAction => 0,
        DndAction::Copy => WL_COPY,
        DndAction::Move => WL_MOVE,
        DndAction::Link => 0,
        DndAction::Ask => WL_ASK,
    }
}

/// The drag action of Wayland actions: copy wins over move, which wins over
/// ask.
pub open spec fn action_of_wayland(bits: u32) -> DndAction {
    if bits & WL_COPY != 0 {
        DndAction::Copy
    } else if bits & WL_MOVE != 0 {
        DndAction::Move
    } else if bits & WL_ASK != 0 {
        DndAction::Ask
    } else {
        DndAction::NoAction
    }
}

/// Converts a drag action to Wayland actions.
pub fn convert_dnd_action(action: DndAction) -> (r: u32)
    ensures
        r == wayland_bits(action),
{
    match action {
        DndAction::NoAction => 0,
        DndAction::Copy => WL_COPY,
        DndAction::Move => WL_MOVE,
        DndAction::Link => 0,
        DndAction::Ask => WL_ASK,
    }
}

/// Converts Wayland actions to a drag action.
pub fn convert_wayland_action(bits: u32) -> (r: DndAction)
    ensures
        r == action_of_wayland(bits),
{
    if bits & WL_COPY != 0 {
        DndAction::Copy
    } else if bits & WL_MOVE != 0 {
        DndAction::Move
    } else if bits & WL_ASK != 0 {
        DndAction::Ask
    } else {
        DndAction::NoAction
    }
}

/// Converting an action to Wayland and back gives it back, but for a link,
/// which Wayland cannot express.
pub proof fn law_wayland_action_round_trip(action: DndAction)
    ensures
        action != DndAction::Link ==> action_of_wayland(wayland_bits(action)) == action,
        action == DndAction::Link ==> action_of_wayland(wayland_bits(action)) == DndAction::NoAction,
{
    assert(0u32 & WL_COPY == 0) by (bit_vector);
    assert(0u32 & WL_MOVE == 0) by (bit_vector);
    assert(0u32 & WL_ASK == 0) by (bit_vector);
    assert(WL_COPY & WL_COPY != 0) by (bit_vector);
    assert(WL_MOVE & WL_COPY == 0) by (bit_vector);
    assert(WL_MOVE & WL_MOVE != 0) by (bit_vector);
    assert(WL_ASK & WL_COPY == 0) by (bit_vector);
    assert(WL_ASK & WL_MOVE == 0) by (bit_vector);
    assert(WL_ASK & WL_ASK != 0) by (bit_vector);
}

/// A drag and drop event from the Wayland compositor; positions are
/// surface coordinates.
#[derive(Debug)]
pub enum WaylandDndEvent<P> {
    /// An offer entered a drop area.
    OfferEnter {
        /// The pointer position.
        position: P,
        /// The offered MIME types.
        mime_types: Vec<String>,
    },
    /// An offer moved.
    OfferMotion {
        /// The pointer position.
        position: P,
    },
    /// An offer left the surface or the drop area.
    OfferLeave,
    /// An offer was dropped; its data follows.
    OfferDrop,
    /// The compositor selected actions for the offer.
    OfferSelectedAction(u32),
    /// The dropped data in a MIME type.
    OfferData {
        /// The data.
        data: Vec<u8>,
        /// Its MIME type.
        mime_type: String,
    },
    /// Our drag finished.
    SourceFinished,
    /// Our drag was cancelled.
    SourceCancelled,
    /// The compositor selected actions for our drag.
    SourceAction(u32),
    /// The target accepted a MIME type of our drag.
    SourceMime(Option<String>),
    /// Our drag was dropped; the outcome follows.
    SourceDropped,
}

/// A drag event for a window.
#[derive(Debug)]
pub enum WindowDragEvent<P> {
    /// A drag entered the window.
    Entered {
        /// The pointer position.
        position: P,
        /// The offered MIME types.
        mime_types: Vec<String>,
    },
    /// A drag moved over the window.
    Moved {
        /// The pointer position.
        position: P,
    },
    /// A drag left the window.
    Left,
    /// Data was dropped on the window.
    Dropped {
        /// Where the drop happened.
        position: P,
        /// The data.
        data: Vec<u8>,
        /// Its MIME type.
        mime_type: String,
        /// The selected action.
        action: DndAction,
    },
}

/// What to do about a Wayland drag and drop event.
#[derive(Debug)]
pub enum DndReaction<P> {
    /// Nothing.
    Nothing,
    /// Report the drag event to the window.
    Report(WindowDragEvent<P>),
    /// Answer a pending request for data in the MIME type with the data,
    /// then report the drop.
    DeliverAndReport {
        /// The MIME type of the data.
        mime_type: String,
        /// The data.
        data: Vec<u8>,
        /// The drop to report.
        event: WindowDragEvent<P>,
    },
    /// Complete our drag with the result.
    CompleteDrag(DropResult),
}

/// The drag and drop state of a Wayland window: the last selected actions,
/// the last pointer position, and whether a drag we started is under way.
#[derive(Debug)]
pub struct WaylandDnd<P> {
    last_action: u32,
    last_position: P,
    drag_active: bool,
}

impl<P: Copy> WaylandDnd<P> {
    /// The last actions the compositor selected.
    pub closed spec fn selected(&self) -> u32 {
        self.last_action
    }

    /// The last pointer position of an offer.
    pub closed spec fn position(&self) -> P {
        self.last_position
    }

    /// Whether a drag we started awaits its result.
    pub closed spec fn dragging(&self) -> bool {
        self.drag_active
    }

    /// The state of a window before any drag: no action selected, the
    /// given position, and no drag of ours.
    pub fn new(origin: P) -> (r: Self)
        ensures
            r.selected() == 0,
            r.position() == origin,
            !r.dragging(),
    {
        WaylandDnd { last_action: 0, last_position: origin, drag_active: false }
    }

    /// Starts a drag of ours: when drag and drop is available it awaits its
    /// result; otherwise it is cancelled at once.
    pub fn start_drag(&mut self, available: bool) -> (r: Option<DropResult>)
        ensures
            available ==> r is None && final(self).dragging(),
            !available ==> r == Some(DropResult::Cancelled) && final(self).dragging() == old(self).dragging(),
            final(self).selected() == old(self).selected(),
            final(self).position() == old(self).position(),
    {
        if available {
            self.drag_active = true;
            None
        } else {
            Some(DropResult::Cancelled)
        }
    }

    /// Completes our drag, if one is under way, with the given result.
    pub fn on_drag_finished(&mut self, result: DropResult) -> (r: Option<DropResult>)
        ensures
            r == (if old(self).dragging() {
                Some(result)
            } else {
                None
            }),
            !final(self).dragging(),
            final(self).selected() == old(self).selected(),
            final(self).position() == old(self).position(),
    {
        if self.drag_active {
            self.drag_active = false;
            Some(result)
        } else {
            None
        }
    }

    /// Handles a Wayland drag and drop event: offers entering and moving
    /// are reported at their position, which is kept; leaving is reported;
    /// selected actions are kept; dropped data is delivered to a pending
    /// request and reported as a drop at the last position with the last
    /// selected action; our drag finishing or being cancelled completes it,
    /// if it is under way.
    pub fn handle(&mut self, event: WaylandDndEvent<P>) -> (r: DndReaction<P>)
        ensures
            match event {
                WaylandDndEvent::OfferEnter { position, mime_types } => r == DndReaction::Report(
                    WindowDragEvent::Entered { position, mime_types },
                ) && final(self).position() == position && final(self).selected() == old(self).selected() && final(self).dragging() == old(self).dragging(),
                WaylandDndEvent::OfferMotion { position } => r == DndReaction::Report(
                    WindowDragEvent::Moved { position },
                ) && final(self).position() == position && final(self).selected() == old(self).selected() && final(self).dragging() == old(self).dragging(),
                WaylandDndEvent::OfferLeave => r == DndReaction::<P>::Report(WindowDragEvent::Left)
                    && final(self).position() == old(self).position() && final(self).selected()
                    == old(self).selected() && final(self).dragging() == old(self).dragging(),
                WaylandDndEvent::OfferSelectedAction(bits) | WaylandDndEvent::SourceAction(bits) =>
                r is Nothing && final(self).selected() == bits && final(self).position() == old(self).position() && final(self).dragging() == old(self).dragging(),
                WaylandDndEvent::OfferData { data, mime_type } => (r matches DndReaction::DeliverAndReport {
                    mime_type: m,
                    data: d,
                    event: e,
                } && m == mime_type && d@ == data@ && e == WindowDragEvent::Dropped {
                    position: old(self).position(),
                    data,
                    mime_type,
                    action: action_of_wayland(old(self).selected()),
                }) && final(self).position() == old(self).position() && final(self).selected()
                    == old(self).selected() && final(self).dragging() == old(self).dragging(),
                WaylandDndEvent::SourceFinished => r == (if old(self).dragging() {
                    DndReaction::<P>::CompleteDrag(
                        DropResult::Dropped(action_of_wayland(old(self).selected())),
                    )
                } else {
                    DndReaction::<P>::Nothing
                }) && !final(self).dragging() && final(self).position() == old(self).position()
                    && final(self).selected() == old(self).selected(),
                WaylandDndEvent::SourceCancelled => r == (if old(self).dragging() {
                    DndReaction::<P>::CompleteDrag(DropResult::Cancelled)
                } else {
                    DndReaction::<P>::Nothing
                }) && !final(self).dragging() && final(self).position() == old(self).position()
                    && final(self).selected() == old(self).selected(),
                _ => r is Nothing && final(self).position() == old(self).position()
                    && final(self).selected() == old(self).selected() && final(self).dragging()
                    == old(self).dragging(),
            },
    {
        match event {
            WaylandDndEvent::OfferEnter { position, mime_types } => {
                self.last_position = position;
                DndReaction::Report(WindowDragEvent::Entered { position, mime_types })
            },
            WaylandDndEvent::OfferMotion { position } => {
                self.last_position = position;
                DndReaction::Report(WindowDragEvent::Moved { position })
            },
            WaylandDndEvent::OfferLeave => DndReaction::Report(WindowDragEvent::Left),
            WaylandDndEvent::OfferDrop => DndReaction::Nothing,
            WaylandDndEvent::OfferSelectedAction(bits) => {
                self.last_action = bits;
                DndReaction::Nothing
            },
            WaylandDndEvent::OfferData { data, mime_type } => {
                let action = convert_wayland_action(self.last_action);
                let delivered = vstd::slice::slice_to_vec(data.as_slice());
                let requested = mime_type.clone();
                DndReaction::DeliverAndReport {
                    mime_type: requested,
                    data: delivered,
                    event: WindowDragEvent::Dropped {
                        position: self.last_position,
                        data,
                        mime_type,
                        action,
                    },
                }
            },
            WaylandDndEvent::SourceFinished => {
                if self.drag_active {
                    self.drag_active = false;
                    DndReaction::CompleteDrag(
                        DropResult::Dropped(convert_wayland_action(self.last_action)),
                    )
                } else {
                    DndReaction::Nothing
                }
            },
            WaylandDndEvent::SourceCancelled => {
                if self.drag_active {
                    self.drag_active = false;
                    DndReaction::CompleteDrag(DropResult::Cancelled)
                } else {
                    DndReaction::Nothing
                }
            },
            WaylandDndEvent::SourceAction(bits) => {
                self.last_action = bits;
                DndReaction::Nothing
            },
            WaylandDndEvent::SourceMime(_) => DndReaction::Nothing,
            WaylandDndEvent::SourceDropped => DndReaction::Nothing,
        }
    }
}

// ============================================================================
// The native application menu
// ============================================================================

/// `out` is the native form of `node`: the same identifier, role, labels,
/// enabled and checked state and shortcuts, with each item's and check
/// item's message replaced by its own identifier, and, for a submenu, the
/// native forms of its children, in order.
pub open spec fn native_node<Message>(out: MenuNode<MenuId>, node: MenuNode<Message>) -> bool
    decreases node,
{
    &&& out.id == node.id
    &&& out.role == node.role
    &&& match node.kind {
        MenuKind::Separator => out.kind is Separator,
        MenuKind::Item { label, enabled, shortcut, .. } => out.kind == MenuKind::Item {
            label,
            enabled,
            shortcut,
            on_activate: node.id,
        },
        MenuKind::CheckItem { label, enabled, checked, shortcut, .. } => out.kind
            == MenuKind::CheckItem { label, enabled, checked, shortcut, on_activate: node.id },
        MenuKind::Submenu { label, enabled, children } => out.kind matches MenuKind::Submenu {
            label: l,
            enabled: e,
            children: c,
        } && l == label && e == enabled && c@.len() == children@.len() && forall|i: int|
            0 <= i < children@.len() ==> native_node(#[trigger] c@[i], children@[i]),
    }
}

/// The messages of a menu node's items and check items, each with its
/// identifier, in the order the menu lists them.
pub open spec fn node_actions<Message>(node: MenuNode<Message>) -> Seq<(MenuId, Message)>
    decreases node, 0nat,
{
    match node.kind {
        MenuKind::Item { on_activate, .. } => seq![(node.id, on_activate)],
        MenuKind::CheckItem { on_activate, .. } => seq![(node.id, on_activate)],
        MenuKind::Submenu { children, .. } => {
            proof {
                assert(decreases_to!(node => node.kind));
                assert(decreases_to!(node.kind => children));
                assert(decreases_to!(children => children@));
            }
            nodes_actions(children@)
        },
        MenuKind::Separator => seq![],
    }
}

/// The messages of menu nodes' items and check items, in order.
pub open spec fn nodes_actions<Message>(nodes: Seq<MenuNode<Message>>) -> Seq<(MenuId, Message)>
    decreases nodes, nodes.len(),
{
    if nodes.len() == 0 {
        seq![]
    } else {
        proof {
            assert(decreases_to!(nodes => nodes[nodes.len() - 1]));
        }
        nodes_actions(nodes.drop_last()) + node_actions(nodes.last())
    }
}

fn convert_node<Message>(node: MenuNode<Message>, actions: &mut Vec<(MenuId, Message)>) -> (r:
    MenuNode<MenuId>)
    ensures
        native_node(r, node),
        final(actions)@ == old(actions)@ + node_actions(node),
    decreases node, 0nat,
{
    let ghost whole = node;
    let MenuNode { id, role, kind } = node;
    match kind {
        MenuKind::Separator => MenuNode { id, role, kind: MenuKind::Separator },
        MenuKind::Item { label, enabled, shortcut, on_activate } => {
            actions.push((id, on_activate));
            MenuNode { id, role, kind: MenuKind::Item { label, enabled, shortcut, on_activate: id } }
        },
        MenuKind::CheckItem { label, enabled, checked, shortcut, on_activate } => {
            actions.push((id, on_activate));
            MenuNode {
                id,
                role,
                kind: MenuKind::CheckItem { label, enabled, checked, shortcut, on_activate: id },
            }
        },
        MenuKind::Submenu { label, enabled, children } => {
            proof {
                assert(decreases_to!(whole => whole.kind));
                assert(decreases_to!(whole.kind => children));
            }
            let converted = convert_nodes(children, actions);
            MenuNode { id, role, kind: MenuKind::Submenu { label, enabled, children: converted } }
        },
    }
}

fn convert_nodes<Message>(nodes: Vec<MenuNode<Message>>, actions: &mut Vec<(MenuId, Message)>) -> (r:
    Vec<MenuNode<MenuId>>)
    ensures
        r@.len() == nodes@.len(),
        forall|i: int| 0 <= i < nodes@.len() ==> native_node(#[trigger] r@[i], nodes@[i]),
        final(actions)@ == old(actions)@ + nodes_actions(nodes@),
    decreases nodes, 1nat,
{
    broadcast use vstd::std_specs::vec::axiom_spec_into_iter;

    let ghost all = nodes@;
    let ghost start = actions@;
    let mut out: Vec<MenuNode<MenuId>> = Vec::new();
    for child in it: nodes.into_iter()
        invariant
            it.seq() == all,
            out@.len() == it.index(),
            forall|i: int| 0 <= i < it.index() ==> native_node(#[trigger] out@[i], all[i]),
            actions@ == start + nodes_actions(all.take(it.index() as int)),
    {
        let ghost k = it.index();
        proof {
            assert(decreases_to!(nodes => nodes@));
            assert(decreases_to!(nodes@ => nodes@[k as int]));
            assert(all.take(k + 1).drop_last() =~= all.take(k as int));
            assert(all.take(k + 1).last() == child);
        }
        let converted = convert_node(child, actions);
        out.push(converted);
        proof {
            assert(actions@ =~= start + nodes_actions(all.take(k + 1)));
        }
    }
    proof {
        assert(all.take(all.len() as int) =~= all);
    }
    out
}

/// The writes that hash a shortcut: whether there is one, then its modifier
/// flags and its key (kind, then text).
pub open spec fn shortcut_writes(shortcut: Option<MenuShortcut>) -> Seq<Seq<u8>> {
    match shortcut {
        None => seq![seq![0u8]],
        Some(s) => seq![seq![1u8], be_bytes_u32(s.modifiers.bits)] + match s.key {
            Key::Named(n) => seq![seq![0u8], encode_utf8(n@), seq![0xffu8]],
            Key::Character(c) => seq![seq![1u8], encode_utf8(c@), seq![0xffu8]],
            Key::Unidentified => seq![seq![2u8]],
        },
    }
}

/// The writes that hash a label.
pub open spec fn label_writes(label: String) -> Seq<Seq<u8>> {
    seq![encode_utf8(label@), seq![0xffu8]]
}

/// The writes that hash a flag.
pub open spec fn flag_write(flag: bool) -> Seq<u8> {
    seq![if flag { 1u8 } else { 0u8 }]
}

/// The writes that hash a native menu node: its identifier, its kind, then
/// its label, state and shortcut, and, for a submenu, its children.
pub open spec fn node_writes(node: MenuNode<MenuId>) -> Seq<Seq<u8>>
    decreases node, 0nat,
{
    seq![be_bytes_u64(node.id.0)] + match node.kind {
        MenuKind::Separator => seq![seq![0u8]],
        MenuKind::Item { label, enabled, shortcut, .. } => seq![seq![1u8]] + label_writes(label)
            + seq![flag_write(enabled)] + shortcut_writes(shortcut),
        MenuKind::CheckItem { label, enabled, checked, shortcut, .. } => seq![seq![2u8]]
            + label_writes(label) + seq![flag_write(enabled), flag_write(checked)]
            + shortcut_writes(shortcut),
        MenuKind::Submenu { label, enabled, children } => {
            proof {
                assert(decreases_to!(node => node.kind));
                assert(decreases_to!(node.kind => children));
                assert(decreases_to!(children => children@));
            }
            seq![seq![3u8]] + label_writes(label) + seq![flag_write(enabled)] + nodes_writes(
                children@,
            )
        },
    }
}

/// The writes that hash native menu nodes, in order.
pub open spec fn nodes_writes(nodes: Seq<MenuNode<MenuId>>) -> Seq<Seq<u8>>
    decreases nodes, nodes.len(),
{
    if nodes.len() == 0 {
        seq![]
    } else {
        proof {
            assert(decreases_to!(nodes => nodes[nodes.len() - 1]));
        }
        nodes_writes(nodes.drop_last()) + node_writes(nodes.last())
    }
}

fn write_flag(hasher: &mut DefaultHasher, flag: bool)
    ensures
        final(hasher)@ == old(hasher)@.push(flag_write(flag)),
{
    let b: [u8; 1] = [if flag { 1u8 } else { 0u8 }];
    assert(b@ =~= flag_write(flag));
    hasher.write(&b);
}

fn write_tag(hasher: &mut DefaultHasher, tag: u8)
    ensures
        final(hasher)@ == old(hasher)@.push(seq![tag]),
{
    let b: [u8; 1] = [tag];
    assert(b@ =~= seq![tag]);
    hasher.write(&b);
}

fn write_label(hasher: &mut DefaultHasher, label: &String)
    ensures
        final(hasher)@ == old(hasher)@ + label_writes(*label),
{
    hasher.write(label.as_str().as_bytes());
    write_tag(hasher, 0xff);
}

fn hash_shortcut(hasher: &mut DefaultHasher, shortcut: &Option<MenuShortcut>)
    ensures
        final(hasher)@ == old(hasher)@ + shortcut_writes(*shortcut),
{
    let ghost start = hasher@;
    match shortcut {
        None => {
            write_tag(hasher, 0);
        },
        Some(s) => {
            write_tag(hasher, 1);
            let bits = be_u32(s.modifiers.bits);
            hasher.write(&bits);
            match &s.key {
                Key::Named(n) => {
                    write_tag(hasher, 0);
                    write_label(hasher, n);
                },
                Key::Character(c) => {
                    write_tag(hasher, 1);
                    write_label(hasher, c);
                },
                Key::Unidentified => {
                    write_tag(hasher, 2);
                },
            }
        },
    }
    assert(hasher@ =~= start + shortcut_writes(*shortcut));
}

fn hash_node(node: &MenuNode<MenuId>, hasher: &mut DefaultHasher)
    ensures
        final(hasher)@ == old(hasher)@ + node_writes(*node),
    decreases node, 0nat,
{
    let ghost start = hasher@;
    let id = be_u64(node.id.0);
    hasher.write(&id);
    match &node.kind {
        MenuKind::Separator => {
            write_tag(hasher, 0);
        },
        MenuKind::Item { label, enabled, shortcut, .. } => {
            write_tag(hasher, 1);
            write_label(hasher, label);
            write_flag(hasher, *enabled);
            hash_shortcut(hasher, shortcut);
        },
        MenuKind::CheckItem { label, enabled, checked, shortcut, .. } => {
            write_tag(hasher, 2);
            write_label(hasher, label);
            write_flag(hasher, *enabled);
            write_flag(hasher, *checked);
            hash_shortcut(hasher, shortcut);
        },
        MenuKind::Submenu { label, enabled, children } => {
            write_tag(hasher, 3);
            write_label(hasher, label);
            write_flag(hasher, *enabled);
            proof {
                assert(decreases_to!(*node => node.kind));
                assert(decreases_to!(node.kind => *children));
            }
            hash_nodes(children, hasher);
        },
    }
    assert(hasher@ =~= start + node_writes(*node));
}

fn hash_nodes(nodes: &Vec<MenuNode<MenuId>>, hasher: &mut DefaultHasher)
    ensures
        final(hasher)@ == old(hasher)@ + nodes_writes(nodes@),
    decreases nodes, 1nat,
{
    let ghost start = hasher@;
    let mut i: usize = 0;
    while i < nodes.len()
        invariant
            i <= nodes@.len(),
            hasher@ == start + nodes_writes(nodes@.take(i as int)),
        decreases nodes@.len() - i,
    {
        proof {
            assert(decreases_to!(*nodes => nodes@));
            assert(decreases_to!(nodes@ => nodes@[i as int]));
            assert(nodes@.take(i + 1).drop_last() =~= nodes@.take(i as int));
            assert(nodes@.take(i + 1).last() == nodes@[i as int]);
        }
        hash_node(&nodes[i], hasher);
        proof {
            assert(hasher@ =~= start + nodes_writes(nodes@.take(i + 1)));
        }
        i = i + 1;
    }
    assert(nodes@.take(nodes@.len() as int) =~= nodes@);
}

/// The writes of each of some nodes appear, whole and in one piece, among
/// the writes of the nodes.
proof fn lemma_nodes_writes_contain(nodes: Seq<MenuNode<MenuId>>, i: int)
    requires
        0 <= i < nodes.len(),
    ensures
        exists|k: int|
            0 <= k && k + node_writes(nodes[i]).len() <= nodes_writes(nodes).len() && #[trigger] nodes_writes(
                nodes,
            ).subrange(k, k + node_writes(nodes[i]).len()) == node_writes(nodes[i]),
    decreases nodes.len(),
{
    let d = nodes.drop_last();
    let w = nodes_writes(nodes);
    assert(w == nodes_writes(d) + node_writes(nodes.last()));
    if i < nodes.len() - 1 {
        lemma_nodes_writes_contain(d, i);
        assert(d[i] == nodes[i]);
        let k = choose|k: int|
            0 <= k && k + node_writes(d[i]).len() <= nodes_writes(d).len() && #[trigger] nodes_writes(
                d,
            ).subrange(k, k + node_writes(d[i]).len()) == node_writes(d[i]);
        assert(w.subrange(k, k + node_writes(nodes[i]).len()) =~= nodes_writes(d).subrange(
            k,
            k + node_writes(d[i]).len(),
        ));
    } else {
        let k = nodes_writes(d).len() as int;
        assert(w.subrange(k, k + node_writes(nodes[i]).len()) =~= node_writes(nodes.last()));
    }
}

/// The signature covers the whole menu tree: the writes hashed for a
/// submenu contain, whole and in one piece, the writes of each of its
/// children (and so, in turn, of every node below it), and the writes of a
/// menu contain those of each of its top-level nodes. A change to any node
/// inside a submenu changes what is hashed for the menu.
pub proof fn law_signature_covers_submenus(menu: AppMenu<MenuId>, node: MenuNode<MenuId>, i: int)
    ensures
        0 <= i < menu.roots@.len() ==> exists|k: int|
            0 <= k && k + node_writes(menu.roots@[i]).len() <= nodes_writes(menu.roots@).len()
                && #[trigger] nodes_writes(menu.roots@).subrange(
                k,
                k + node_writes(menu.roots@[i]).len(),
            ) == node_writes(menu.roots@[i]),
        node.kind is Submenu && 0 <= i < node.kind->Submenu_children@.len() ==> exists|k: int|
            0 <= k && k + node_writes(node.kind->Submenu_children@[i]).len() <= node_writes(
                node,
            ).len() && #[trigger] node_writes(node).subrange(
                k,
                k + node_writes(node.kind->Submenu_children@[i]).len(),
            ) == node_writes(node.kind->Submenu_children@[i]),
{
    if 0 <= i < menu.roots@.len() {
        lemma_nodes_writes_contain(menu.roots@, i);
    }
    if node.kind is Submenu && 0 <= i < node.kind->Submenu_children@.len() {
        let children = node.kind->Submenu_children@;
        lemma_nodes_writes_contain(children, i);
        let head = node_writes(node).len() - nodes_writes(children).len();
        assert(node_writes(node) == node_writes(node).subrange(0, head) + nodes_writes(children));
        let k = choose|k: int|
            0 <= k && k + node_writes(children[i]).len() <= nodes_writes(children).len()
                && #[trigger] nodes_writes(children).subrange(k, k + node_writes(children[i]).len())
                == node_writes(children[i]);
        assert(node_writes(node).subrange(head + k, head + k + node_writes(children[i]).len())
            =~= nodes_writes(children).subrange(k, k + node_writes(children[i]).len()));
    }
}

/// The tag written for a node's kind.
spec fn kind_tag(kind: MenuKind<MenuId>) -> u8 {
    match kind {
        MenuKind::Separator => 0,
        MenuKind::Item { .. } => 1,
        MenuKind::CheckItem { .. } => 2,
        MenuKind::Submenu { .. } => 3,
    }
}

proof fn lemma_kind_tag(node: MenuNode<MenuId>)
    ensures
        node_writes(node).len() > 1,
        node_writes(node)[1].len() == 1,
        node_writes(node)[1][0] == kind_tag(node.kind),
{
}

/// What is hashed for a node tells its kind, label and state: two native
/// menu nodes hashed alike are of the same kind, with labels of the same
/// text and the same enabled and checked state, and two submenus hashed
/// alike have children hashed alike. A change to any of these is seen.
pub proof fn law_menu_writes_tell_nodes_apart(a: MenuNode<MenuId>, b: MenuNode<MenuId>)
    requires
        node_writes(a) == node_writes(b),
    ensures
        a.kind is Separator <==> b.kind is Separator,
        a.kind is Item <==> b.kind is Item,
        a.kind is CheckItem <==> b.kind is CheckItem,
        a.kind is Submenu <==> b.kind is Submenu,
        a.kind is Item && b.kind is Item ==> a.kind->Item_label@ == b.kind->Item_label@
            && a.kind->Item_enabled == b.kind->Item_enabled,
        a.kind is CheckItem && b.kind is CheckItem ==> a.kind->CheckItem_label@
            == b.kind->CheckItem_label@ && a.kind->CheckItem_enabled == b.kind->CheckItem_enabled
            && a.kind->CheckItem_checked == b.kind->CheckItem_checked,
        a.kind is Submenu && b.kind is Submenu ==> a.kind->Submenu_label@
            == b.kind->Submenu_label@ && a.kind->Submenu_enabled == b.kind->Submenu_enabled
            && nodes_writes(a.kind->Submenu_children@) == nodes_writes(b.kind->Submenu_children@),
{
    let w = node_writes(a);
    lemma_kind_tag(a);
    lemma_kind_tag(b);
    assert(w[1][0] == node_writes(b)[1][0]);
    match (a.kind, b.kind) {
        (MenuKind::Item { label: la, .. }, MenuKind::Item { label: lb, .. }) => {
            assert(encode_utf8(la@) == w[2]);
            assert(encode_utf8(lb@) == node_writes(b)[2]);
            vstd::utf8::encode_utf8_decode_utf8(la@);
            vstd::utf8::encode_utf8_decode_utf8(lb@);
            assert(w[4] == node_writes(b)[4]);
        },
        (
            MenuKind::CheckItem { label: la, enabled: ea, checked: ka, .. },
            MenuKind::CheckItem { label: lb, enabled: eb, checked: kb, .. },
        ) => {
            assert(encode_utf8(la@) == w[2]);
            assert(encode_utf8(lb@) == node_writes(b)[2]);
            vstd::utf8::encode_utf8_decode_utf8(la@);
            vstd::utf8::encode_utf8_decode_utf8(lb@);
            assert(w[4] == flag_write(ea) && node_writes(b)[4] == flag_write(eb));
            assert(w[5] == flag_write(ka) && node_writes(b)[5] == flag_write(kb));
            assert(flag_write(ea)[0] == flag_write(eb)[0]);
            assert(flag_write(ka)[0] == flag_write(kb)[0]);
        },
        (
            MenuKind::Submenu { label: la, enabled: ea, children: ca },
            MenuKind::Submenu { label: lb, enabled: eb, children: cb },
        ) => {
            assert(encode_utf8(la@) == w[2]);
            assert(encode_utf8(lb@) == node_writes(b)[2]);
            vstd::utf8::encode_utf8_decode_utf8(la@);
            vstd::utf8::encode_utf8_decode_utf8(lb@);
            assert(w[4] == flag_write(ea) && node_writes(b)[4] == flag_write(eb));
            assert(flag_write(ea)[0] == flag_write(eb)[0]);
            let head_a = seq![be_bytes_u64(a.id.0)] + (seq![seq![3u8]] + label_writes(la) + seq![
                flag_write(ea),
            ]);
            let head_b = seq![be_bytes_u64(b.id.0)] + (seq![seq![3u8]] + label_writes(lb) + seq![
                flag_write(eb),
            ]);
            assert(w =~= head_a + nodes_writes(ca@));
            assert(node_writes(b) =~= head_b + nodes_writes(cb@));
            assert(nodes_writes(ca@) =~= w.subrange(5, w.len() as int));
            assert(nodes_writes(cb@) =~= node_writes(b).subrange(5, w.len() as int));
        },
        _ => {},
    }
}

/// The signature of a native menu: the default hasher's digest of the
/// menu's writes. Equal menus have equal signatures, so a native menu only
/// needs rebuilding when the signature changes.
pub open spec fn menu_signature(menu: AppMenu<MenuId>) -> u64 {
    DefaultHasher::spec_finish(nodes_writes(menu.roots@))
}

/// Prepares an application menu for a native menu bar: each item's and
/// check item's message is replaced by its identifier, the messages are
/// returned with their identifiers in menu order (a later entry wins over
/// an earlier one with the same identifier), and the menu's signature.
pub fn menu_for_platform<Message>(menu_model: AppMenu<Message>) -> (r: (
    AppMenu<MenuId>,
    Vec<(MenuId, Message)>,
    u64,
))
    ensures
        r.0.roots@.len() == menu_model.roots@.len(),
        forall|i: int|
            0 <= i < menu_model.roots@.len() ==> native_node(
                #[trigger] r.0.roots@[i],
                menu_model.roots@[i],
            ),
        r.1@ == nodes_actions(menu_model.roots@),
        r.2 == menu_signature(r.0),
{
    let mut actions: Vec<(MenuId, Message)> = Vec::new();
    let roots = convert_nodes(menu_model.roots, &mut actions);
    assert(actions@ =~= nodes_actions(menu_model.roots@));
    let menu = AppMenu::new(roots);
    let mut hasher = DefaultHasher::new();
    hash_nodes(&menu.roots, &mut hasher);
    assert(hasher@ =~= nodes_writes(menu.roots@));
    let signature = hasher.finish();
    (menu, actions, signature)
}

} // verus!
