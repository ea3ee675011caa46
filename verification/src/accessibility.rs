//! Accessibility state: the accessibility mode, the accessibility focus
//! (separate from widget focus), node identifiers and announcements.
use vstd::prelude::*;

use std::hash::BuildHasher;

use crate::widget;

verus! {

/// The identifier of a node in the accessibility tree.
#[derive(Debug, Clone, Copy, PartialEq, Eq, PartialOrd, Ord, Hash, Structural)]
pub struct NodeId(pub u64);

/// Whether two optional node identifiers are the same.
pub fn same_node(a: Option<NodeId>, b: Option<NodeId>) -> (r: bool)
    ensures
        r == (a == b),
{
    match (a, b) {
        (None, None) => true,
        (Some(x), Some(y)) => x.0 == y.0,
        _ => false,
    }
}

// ============================================================================
// Hashing of identifiers
// ============================================================================

/// What the standard library's default hasher gives for a pair of `u64` values.
pub uninterp spec fn pair_hash(a: u64, b: u64) -> u64;

/// What the standard library's default hasher gives for a single `u64` value.
pub uninterp spec fn key_hash(key: u64) -> u64;

/// Hashes the pair `(a, b)` with the standard library's `DefaultHasher`
/// (`BuildHasher::hash_one`). The contract only names the result: it is a
/// function of `a` and `b`, and nothing more is stated of its value.
#[verifier::external_body]
fn hash_pair(a: u64, b: u64) -> (h: u64)
    ensures
        h == pair_hash(a, b),
{
    std::hash::BuildHasherDefault::<std::collections::hash_map::DefaultHasher>::default().hash_one(
        (a, b),
    )
}

/// Hashes `key` with the standard library's `DefaultHasher`
/// (`BuildHasher::hash_one`). The contract only names the result: it is a
/// function of `key`, and nothing more is stated of its value.
#[verifier::external_body]
fn hash_key(key: u64) -> (h: u64)
    ensures
        h == key_hash(key),
{
    std::hash::BuildHasherDefault::<std::collections::hash_map::DefaultHasher>::default().hash_one(
        key,
    )
}

/// Moves a hash value off the identifiers 0 and 1, which shells reserve for
/// the root and the announcer.
pub open spec fn avoid_reserved(value: u64) -> u64 {
    if value <= 1 {
        (value + 2) as u64
    } else {
        value
    }
}

/// Derives a stable child `NodeId` from a parent node id.
pub fn derived_node_id(parent: NodeId, child_index: u64) -> (r: NodeId)
    ensures
        r.0 == avoid_reserved(pair_hash(parent.0, child_index)),
        r.0 > 1,
{
    let mut value = hash_pair(parent.0, child_index);
    if value <= 1 {
        value = value.wrapping_add(2);
    }
    NodeId(value)
}

/// Generates a stable [`NodeId`] from an arbitrary ID value.
pub fn node_id(id: u64) -> (r: NodeId)
    ensures
        r.0 == id,
{
    NodeId(id)
}

/// Generates a stable [`NodeId`] from a widget [`widget::Id`].
///
/// The identifiers 0 and 1 are never produced.
pub fn node_id_from_widget_id(id: &widget::Id) -> (r: NodeId)
    ensures
        r.0 == avoid_reserved(key_hash(id.0)),
        r.0 > 1,
{
    let mut value = hash_key(id.0);
    if value <= 1 {
        value = value.wrapping_add(2);
    }
    NodeId(value)
}

// ============================================================================
// Accessibility Mode
// ============================================================================

/// The current accessibility mode of the application.
///
/// When a screen reader connects, the application enters `Active` mode which
/// changes focus handling and navigation behavior.
#[derive(Debug, Clone, Copy, PartialEq, Eq, Default, Structural)]
pub enum Mode {
    /// No screen reader is connected. Normal focus and navigation.
    #[default]
    Inactive,
    /// A screen reader is connected. Accessibility-specific behavior is active.
    Active,
}

impl Mode {
    /// Returns `true` if accessibility is active (screen reader connected).
    pub fn is_active(self) -> (r: bool)
        ensures
            r == (self == Mode::Active),
    {
        match self {
            Mode::Active => true,
            Mode::Inactive => false,
        }
    }
}

// ============================================================================
// Accessibility Focus
// ============================================================================

/// Represents the accessibility focus, which is separate from widget focus.
///
/// The accessibility focus (the "VoiceOver cursor" on macOS or "virtual
/// cursor" elsewhere) can point to any element in the accessibility tree,
/// including non-interactive elements like static text.
#[derive(Debug, Clone, Copy, PartialEq, Eq, Default, Structural)]
pub struct Focus {
    /// The currently focused node ID.
    pub node: Option<NodeId>,
    /// Whether the focus was set programmatically (vs. by user navigation).
    pub programmatic: bool,
}

impl Focus {
    /// Creates a new accessibility focus.
    pub fn new() -> (r: Self)
        ensures
            r == (Focus { node: None, programmatic: false }),
    {
        Focus { node: None, programmatic: false }
    }

    /// Sets the focus to a specific node.
    pub fn set(&mut self, id: NodeId)
        ensures
            *final(self) == (Focus { node: Some(id), programmatic: false }),
    {
        self.node = Some(id);
        self.programmatic = false;
    }

    /// Sets the focus programmatically (won't trigger announcement).
    pub fn set_programmatic(&mut self, id: NodeId)
        ensures
            *final(self) == (Focus { node: Some(id), programmatic: true }),
    {
        self.node = Some(id);
        self.programmatic = true;
    }

    /// Clears the focus.
    pub fn clear(&mut self)
        ensures
            *final(self) == (Focus { node: None, programmatic: false }),
    {
        self.node = None;
        self.programmatic = false;
    }
}

/// Where `TextSelection.anchor.node` / `TextSelection.focus.node` should point.
#[derive(Debug, Clone, Copy, PartialEq, Eq, Structural)]
pub enum TextSelectionTarget {
    /// Point to the node represented by this widget.
    ThisNode,
    /// Point to an extra child node by index in the extra children.
    ExtraChild(usize),
}

/// The character that stands for each character of a secure text input's
/// value, so that screen readers do not announce it.
pub const MASK_CHAR: char = '\u{2022}';

/// The value a secure text input shows to assistive technology: one mask
/// character for each character of the real value.
pub fn masked_value(value_length: usize) -> (r: String)
    ensures
        r@ == Seq::new(value_length as nat, |_i: int| MASK_CHAR),
{
    let mut out = String::new();
    let mut i: usize = 0;
    while i < value_length
        invariant
            i <= value_length,
            out@ == Seq::new(i as nat, |_j: int| MASK_CHAR),
        decreases value_length - i,
    {
        crate::text::push_char(&mut out, MASK_CHAR);
        i = i + 1;
        assert(out@ =~= Seq::new(i as nat, |_j: int| MASK_CHAR));
    }
    out
}

/// The number of characters in the first `n` words of a text run whose
/// words have the given lengths.
pub open spec fn chars_before(lengths: Seq<u8>, n: int) -> int
    decreases n,
{
    if n <= 0 || n > lengths.len() {
        0
    } else {
        chars_before(lengths, n - 1) + lengths[n - 1]
    }
}

/// More words never hold fewer characters.
proof fn lemma_chars_before_grows(lengths: Seq<u8>, m: int, n: int)
    requires
        0 <= m <= n <= lengths.len(),
    ensures
        chars_before(lengths, m) <= chars_before(lengths, n),
    decreases n - m,
{
    if m < n {
        lemma_chars_before_grows(lengths, m, n - 1);
    }
}

/// The character index where each word of a text run starts, from the
/// words' lengths in characters: the first starts at 0 and each next one
/// where the one before it ends. `None` when a start does not fit in a
/// byte, that is when the words before the last one hold more than 255
/// characters.
pub fn word_starts(lengths: &[u8]) -> (r: Option<Vec<u8>>)
    ensures
        r is None <==> (lengths@.len() > 0 && chars_before(lengths@, lengths@.len() - 1) > 255),
        r matches Some(starts) ==> starts@.len() == lengths@.len() && forall|i: int|
            0 <= i < lengths@.len() ==> starts@[i] == chars_before(lengths@, i),
{
    let mut starts: Vec<u8> = Vec::new();
    let mut acc: u32 = 0;
    let mut i: usize = 0;
    while i < lengths.len()
        invariant
            i <= lengths@.len(),
            starts@.len() == i,
            acc == chars_before(lengths@, i as int),
            i > 0 ==> chars_before(lengths@, i - 1) <= 255,
            forall|j: int| 0 <= j < i ==> starts@[j] == chars_before(lengths@, j),
        decreases lengths@.len() - i,
    {
        if acc > 255 {
            proof {
                lemma_chars_before_grows(lengths@, i as int, lengths@.len() - 1);
            }
            return None;
        }
        starts.push(acc as u8);
        acc = acc + lengths[i] as u32;
        i = i + 1;
    }
    Some(starts)
}

// ============================================================================
// Accessibility State
// ============================================================================

/// Priority for screen reader announcements.
#[derive(Debug, Clone, Copy, PartialEq, Eq, Default, Structural)]
pub enum AnnouncementPriority {
    /// Wait for screen reader to finish current speech.
    #[default]
    Polite,
    /// Interrupt current speech immediately.
    Assertive,
}

/// The state of the accessibility system for a window.
///
/// This tracks whether accessibility is active, the current focus,
/// and pending updates to the accessibility tree.
#[derive(Debug)]
pub struct AccessibilityState {
    /// The current accessibility mode.
    pub mode: Mode,
    /// The accessibility focus (separate from widget focus).
    pub a11y_focus: Focus,
    /// The widget focus node (synced from widget tree).
    pub widget_focus: Option<NodeId>,
    /// Whether the tree has been modified and needs to be sent.
    pub dirty: bool,
    /// Serial number for announcements (to ensure unique values).
    pub announcement_serial: u64,
    /// Pending announcement to be read by screen reader.
    pub pending_announcement: Option<(String, AnnouncementPriority)>,
}

/// The dirty flag after marking the tree dirty: it is only raised while
/// accessibility is active.
pub open spec fn marked_dirty(mode: Mode, dirty: bool) -> bool {
    dirty || mode == Mode::Active
}

impl AccessibilityState {
    /// The a11y focus if set, otherwise the widget focus.
    pub open spec fn spec_effective_focus(&self) -> Option<NodeId> {
        match self.a11y_focus.node {
            Some(n) => Some(n),
            None => self.widget_focus,
        }
    }

    /// The state is the fresh, inactive state.
    pub open spec fn is_fresh(&self) -> bool {
        &&& self.mode == Mode::Inactive
        &&& self.a11y_focus == (Focus { node: None, programmatic: false })
        &&& self.widget_focus is None
        &&& !self.dirty
        &&& self.announcement_serial == 0
        &&& self.pending_announcement is None
    }

    /// Creates a new accessibility state.
    pub fn new() -> (r: Self)
        ensures
            r.is_fresh(),
    {
        AccessibilityState {
            mode: Mode::Inactive,
            a11y_focus: Focus::new(),
            widget_focus: None,
            dirty: false,
            announcement_serial: 0,
            pending_announcement: None,
        }
    }

    /// Returns whether accessibility is currently active.
    pub fn is_active(&self) -> (r: bool)
        ensures
            r == (self.mode == Mode::Active),
    {
        self.mode.is_active()
    }

    /// Activates accessibility mode (screen reader connected).
    ///
    /// The tree is marked dirty when the mode changes.
    pub fn activate(&mut self)
        ensures
            final(self).mode == Mode::Active,
            final(self).dirty == (old(self).dirty || old(self).mode != Mode::Active),
            final(self).a11y_focus == old(self).a11y_focus,
            final(self).widget_focus == old(self).widget_focus,
            final(self).announcement_serial == old(self).announcement_serial,
            final(self).pending_announcement == old(self).pending_announcement,
    {
        if self.mode != Mode::Active {
            self.mode = Mode::Active;
            self.dirty = true;
        }
    }

    /// Deactivates accessibility mode (screen reader disconnected) and clears
    /// the accessibility focus.
    pub fn deactivate(&mut self)
        ensures
            final(self).spec_effective_focus() == old(self).widget_focus,
            final(self).mode == Mode::Inactive,
            final(self).a11y_focus == (Focus { node: None, programmatic: false }),
            final(self).dirty == old(self).dirty,
            final(self).widget_focus == old(self).widget_focus,
            final(self).announcement_serial == old(self).announcement_serial,
            final(self).pending_announcement == old(self).pending_announcement,
    {
        self.mode = Mode::Inactive;
        self.a11y_focus.clear();
    }

    /// Marks the tree as dirty (needs update); does nothing while
    /// accessibility is inactive.
    pub fn mark_dirty(&mut self)
        ensures
            final(self).dirty == marked_dirty(old(self).mode, old(self).dirty),
            final(self).mode == old(self).mode,
            final(self).a11y_focus == old(self).a11y_focus,
            final(self).widget_focus == old(self).widget_focus,
            final(self).announcement_serial == old(self).announcement_serial,
            final(self).pending_announcement == old(self).pending_announcement,
    {
        if self.is_active() {
            self.dirty = true;
        }
    }

    /// Clears the dirty flag.
    pub fn clear_dirty(&mut self)
        ensures
            !final(self).dirty,
            final(self).mode == old(self).mode,
            final(self).a11y_focus == old(self).a11y_focus,
            final(self).widget_focus == old(self).widget_focus,
            final(self).announcement_serial == old(self).announcement_serial,
            final(self).pending_announcement == old(self).pending_announcement,
    {
        self.dirty = false;
    }

    /// Sets the accessibility focus (the focus controlled by the screen
    /// reader). Nothing changes when it already points at `id`.
    pub fn set_a11y_focus(&mut self, id: NodeId)
        ensures
            final(self).spec_effective_focus() == Some(id),
            old(self).a11y_focus.node == Some(id) ==> final(self).a11y_focus == old(self).a11y_focus && final(self).dirty == old(self).dirty,
            old(self).a11y_focus.node != Some(id) ==> final(self).a11y_focus == (Focus {
                node: Some(id),
                programmatic: false,
            }) && final(self).dirty == marked_dirty(old(self).mode, old(self).dirty),
            final(self).mode == old(self).mode,
            final(self).widget_focus == old(self).widget_focus,
            final(self).announcement_serial == old(self).announcement_serial,
            final(self).pending_announcement == old(self).pending_announcement,
    {
        if !same_node(self.a11y_focus.node, Some(id)) {
            self.a11y_focus.set(id);
            self.mark_dirty();
        }
    }

    /// Sets the widget focus (synced from the widget tree).
    ///
    /// A change to the widget focus moves the accessibility focus along,
    /// programmatically.
    pub fn set_widget_focus(&mut self, id: Option<NodeId>)
        ensures
            old(self).widget_focus != id && id is Some ==> final(self).spec_effective_focus() == id,
            old(self).widget_focus == id ==> final(self).widget_focus == old(self).widget_focus
                && final(self).a11y_focus == old(self).a11y_focus && final(self).dirty == old(self).dirty,
            old(self).widget_focus != id ==> final(self).widget_focus == id && final(self).a11y_focus == (match id {
                Some(n) => Focus { node: Some(n), programmatic: true },
                None => old(self).a11y_focus,
            }) && final(self).dirty == marked_dirty(old(self).mode, old(self).dirty),
            final(self).mode == old(self).mode,
            final(self).announcement_serial == old(self).announcement_serial,
            final(self).pending_announcement == old(self).pending_announcement,
    {
        if !same_node(self.widget_focus, id) {
            self.widget_focus = id;
            if let Some(id) = id {
                self.a11y_focus.set_programmatic(id);
            }
            self.mark_dirty();
        }
    }

    /// Returns the current focus for the accessibility tree: the a11y focus
    /// if set, otherwise the widget focus.
    pub fn effective_focus(&self) -> (r: Option<NodeId>)
        ensures
            r == self.spec_effective_focus(),
    {
        match self.a11y_focus.node {
            Some(n) => Some(n),
            None => self.widget_focus,
        }
    }

    /// Queues an announcement for the screen reader, replacing any pending one.
    pub fn announce(&mut self, message: String, priority: AnnouncementPriority)
        ensures
            final(self).pending_announcement == Some((message, priority)),
            final(self).dirty == marked_dirty(old(self).mode, old(self).dirty),
            final(self).mode == old(self).mode,
            final(self).a11y_focus == old(self).a11y_focus,
            final(self).widget_focus == old(self).widget_focus,
            final(self).announcement_serial == old(self).announcement_serial,
    {
        self.pending_announcement = Some((message, priority));
        self.mark_dirty();
    }

    /// Takes the pending announcement (clearing it).
    pub fn take_announcement(&mut self) -> (r: Option<(String, AnnouncementPriority)>)
        ensures
            r == old(self).pending_announcement,
            final(self).pending_announcement is None,
            final(self).dirty == old(self).dirty,
            final(self).mode == old(self).mode,
            final(self).a11y_focus == old(self).a11y_focus,
            final(self).widget_focus == old(self).widget_focus,
            final(self).announcement_serial == old(self).announcement_serial,
    {
        self.pending_announcement.take()
    }

    /// Increments the announcement serial (wrapping) and returns the new value.
    pub fn next_announcement_serial(&mut self) -> (r: u64)
        ensures
            r == old(self).announcement_serial.wrapping_add(1),
            final(self).announcement_serial == r,
            final(self).dirty == old(self).dirty,
            final(self).mode == old(self).mode,
            final(self).a11y_focus == old(self).a11y_focus,
            final(self).widget_focus == old(self).widget_focus,
            final(self).pending_announcement == old(self).pending_announcement,
    {
        self.announcement_serial = self.announcement_serial.wrapping_add(1);
        self.announcement_serial
    }

    /// Returns the focused node (legacy API; use `effective_focus`).
    pub fn focus(&self) -> (r: Option<NodeId>)
        ensures
            r == self.spec_effective_focus(),
    {
        self.effective_focus()
    }

    /// Returns whether accessibility is enabled (legacy API; use `is_active`).
    pub fn enabled(&self) -> (r: bool)
        ensures
            r == (self.mode == Mode::Active),
    {
        self.is_active()
    }
}

} // verus!
