//! Operate on widgets that provide accessibility information.
//!
//! The operations follow the traversal of the widget tree: the walker calls
//! `container` when it enters a container, `leave_container` when it leaves
//! it, `accessibility` for each widget that describes itself, `focusable` for
//! each focusable widget, and `finish` at the end. A widget without an
//! explicit [`Id`] gets a node identifier derived from its path in the tree,
//! so identifiers stay stable across frames while the tree keeps its shape.
use vstd::prelude::*;

use std::hash::BuildHasher;

use std::collections::{BTreeMap, HashSet};

use crate::accessibility::{
    avoid_reserved, derived_node_id, key_hash, node_id_from_widget_id, pair_hash, NodeId,
    TextSelectionTarget,
};
use crate::widget::operation::focusable::{FocusState, Focusable};
use crate::widget::Id;

verus! {

// ============================================================================
// Paths in the widget tree
// ============================================================================

/// What the standard library's default hasher gives for a tree path
/// followed by a sibling index.
pub uninterp spec fn path_index_hash(path: Seq<usize>, index: usize) -> u64;

/// What the standard library's default hasher gives for a tree path alone.
pub uninterp spec fn path_only_hash(path: Seq<usize>) -> u64;

/// Hashes the pair `(path, index)` with the standard library's
/// `DefaultHasher` (`BuildHasher::hash_one`). The contract only names the
/// result: it is a function of the path and the index.
#[verifier::external_body]
fn hash_path_and_index(path: &Vec<usize>, index: usize) -> (h: u64)
    ensures
        h == path_index_hash(path@, index),
{
    std::hash::BuildHasherDefault::<std::collections::hash_map::DefaultHasher>::default().hash_one(
        (path, index),
    )
}

/// Hashes `path` with the standard library's `DefaultHasher`
/// (`BuildHasher::hash_one`). The contract only names the result: it is a
/// function of the path.
#[verifier::external_body]
fn hash_path(path: &Vec<usize>) -> (h: u64)
    ensures
        h == path_only_hash(path@),
{
    std::hash::BuildHasherDefault::<std::collections::hash_map::DefaultHasher>::default().hash_one(
        path,
    )
}

/// Base value for path-based identifiers, keeping them apart from other
/// identifier schemes (bit 61 set).
pub const PATH_BASED_ID_BASE: u64 = 0x2000_0000_0000_0000;

/// The low 61 bits of a hash value.
pub const PATH_BASED_ID_MASK: u64 = 0x1fff_ffff_ffff_ffff;

/// The path of the traversal in the widget tree: the index of each
/// enclosing container among its siblings, and a counter of the children
/// seen so far at each level.
pub type PathView = (Seq<usize>, Seq<usize>);

/// The counter sequence with its last counter advanced by one (wrapping);
/// unchanged when empty.
pub open spec fn bump_last(c: Seq<usize>) -> Seq<usize> {
    if c.len() > 0 {
        c.update(c.len() - 1, c.last().wrapping_add(1))
    } else {
        c
    }
}

/// The path after entering a container.
pub open spec fn entered(v: PathView) -> PathView {
    let index = if v.1.len() > 0 {
        v.1.last()
    } else {
        0usize
    };
    (v.0.push(index), v.1.push(0))
}

/// The path after leaving a container.
pub open spec fn left(v: PathView) -> PathView {
    let path = if v.0.len() > 0 {
        v.0.drop_last()
    } else {
        v.0
    };
    let counter = if v.1.len() > 0 {
        v.1.drop_last()
    } else {
        v.1
    };
    (path, bump_last(counter))
}

/// The path after seeing a leaf widget.
pub open spec fn counted(v: PathView) -> PathView {
    (v.0, bump_last(v.1))
}

/// The path-based identifier value of the current position.
pub open spec fn path_node_value(v: PathView) -> u64 {
    let h = if v.1.len() > 0 {
        path_index_hash(v.0, v.1.last())
    } else {
        path_only_hash(v.0)
    };
    avoid_reserved(PATH_BASED_ID_BASE | (h & PATH_BASED_ID_MASK))
}

/// The identifier value made from a digest: bit 61 set, the low 61 bits of
/// the digest, and kept off the reserved values.
pub open spec fn tagged_digest(h: u64) -> u64 {
    avoid_reserved(PATH_BASED_ID_BASE | (h & PATH_BASED_ID_MASK))
}

/// A position's identifier is made from the default hasher's digest of its
/// whole position: the path of the enclosing containers together with the
/// sibling index at its level. Two positions are hashed alike only when
/// both their container paths and their sibling indices agree, so the first
/// widget at the top and the first widget inside a container are hashed
/// apart.
pub proof fn law_path_ids_hash_the_whole_position(v: PathView, w: PathView)
    ensures
        v.1.len() > 0 ==> path_node_value(v) == tagged_digest(path_index_hash(v.0, v.1.last())),
        v.1.len() == 0 ==> path_node_value(v) == tagged_digest(path_only_hash(v.0)),
        v.1.len() > 0 && w.1.len() > 0 && v.0 == w.0 && v.1.last() == w.1.last()
            ==> path_node_value(v) == path_node_value(w),
        entered(v).0 != v.0,
{
    assert(entered(v).0.len() == v.0.len() + 1);
}

/// The node identifier of a widget: derived from its [`Id`] when it has one,
/// otherwise from its position in the tree.
pub open spec fn node_value(v: PathView, id: Option<Id>) -> u64 {
    match id {
        Some(id) => avoid_reserved(key_hash(id.0)),
        None => path_node_value(v),
    }
}

/// Tracks the position of a traversal in the widget tree.
#[derive(Debug)]
pub struct TreePath {
    path: Vec<usize>,
    child_counter: Vec<usize>,
}

impl View for TreePath {
    type V = PathView;

    closed spec fn view(&self) -> PathView {
        (self.path@, self.child_counter@)
    }
}

impl TreePath {
    /// The position at the root: no enclosing container, one counter.
    pub fn new() -> (r: Self)
        ensures
            r@ == (Seq::<usize>::empty(), seq![0usize]),
    {
        let mut child_counter: Vec<usize> = Vec::new();
        child_counter.push(0);
        TreePath { path: Vec::new(), child_counter }
    }

    fn bump(&mut self)
        ensures
            final(self)@ == counted(old(self)@),
    {
        let n = self.child_counter.len();
        if n > 0 {
            let c = self.child_counter[n - 1];
            self.child_counter.set(n - 1, c.wrapping_add(1));
        }
    }

    /// Called when entering a container to track the path.
    pub fn enter_container(&mut self)
        ensures
            final(self)@ == entered(old(self)@),
    {
        let n = self.child_counter.len();
        let child_index = if n > 0 {
            self.child_counter[n - 1]
        } else {
            0
        };
        self.path.push(child_index);
        self.child_counter.push(0);
    }

    /// Called when leaving a container: the container counts as a sibling
    /// at the level of its parent.
    pub fn leave_container(&mut self)
        ensures
            final(self)@ == left(old(self)@),
    {
        let _ = self.path.pop();
        let _ = self.child_counter.pop();
        self.bump();
    }

    /// Called when we see a leaf widget.
    pub fn count_sibling(&mut self)
        ensures
            final(self)@ == counted(old(self)@),
    {
        self.bump();
    }

    /// Generates a stable identifier based on the current path in the tree.
    ///
    /// The identifier has bit 61 set, so it is never one of the reserved
    /// identifiers 0 and 1.
    pub fn path_based_id(&self) -> (r: NodeId)
        ensures
            r.0 == path_node_value(self@),
            r.0 >= PATH_BASED_ID_BASE,
    {
        let n = self.child_counter.len();
        let hash = if n > 0 {
            hash_path_and_index(&self.path, self.child_counter[n - 1])
        } else {
            hash_path(&self.path)
        };
        let id = PATH_BASED_ID_BASE | (hash & PATH_BASED_ID_MASK);
        assert(0x2000_0000_0000_0000u64 | (hash & 0x1fff_ffff_ffff_ffffu64)
            >= 0x2000_0000_0000_0000u64) by (bit_vector);
        if id <= 1 {
            NodeId(id + 2)
        } else {
            NodeId(id)
        }
    }

    /// The node identifier of a widget at the current position.
    pub fn node_id_for(&self, id: Option<Id>) -> (r: NodeId)
        ensures
            r.0 == node_value(self@, id),
            r.0 > 1,
    {
        match id {
            Some(id) => node_id_from_widget_id(&id),
            None => self.path_based_id(),
        }
    }
}

/// A container counts as one sibling at the level of its parent: entering
/// and leaving it moves the path as seeing one leaf does.
pub proof fn law_container_counts_as_sibling(v: PathView)
    ensures
        left(entered(v)) == counted(v),
{
    let e = entered(v);
    assert(e.0.drop_last() =~= v.0);
    assert(e.1.drop_last() =~= v.1);
}

// ============================================================================
// Navigation through accessibility nodes
// ============================================================================

/// Result of navigating through accessibility nodes.
#[derive(Debug, Clone, Copy, PartialEq, Eq, Structural)]
pub struct A11yNavigation {
    /// The new focus node after navigation.
    pub new_focus: Option<NodeId>,
    /// Total number of focusable accessibility nodes.
    pub total_nodes: usize,
}

/// The direction of navigation.
#[derive(Debug, Clone, Copy, PartialEq, Eq, Structural)]
pub enum NavigateDirection {
    /// Towards the next node.
    Next,
    /// Towards the previous node.
    Previous,
}

/// The position of the first occurrence of `id` in `nodes`, if any.
pub open spec fn first_index(nodes: Seq<NodeId>, id: NodeId) -> Option<nat>
    decreases nodes.len(),
{
    if nodes.len() == 0 {
        None
    } else if nodes[0] == id {
        Some(0)
    } else {
        match first_index(nodes.drop_first(), id) {
            Some(k) => Some(k + 1),
            None => None,
        }
    }
}

/// The position that navigation moves to, with wrapping.
pub open spec fn navigation_index(
    current: Option<nat>,
    total: nat,
    direction: NavigateDirection,
) -> nat {
    match (current, direction) {
        (None, NavigateDirection::Next) => 0,
        (None, NavigateDirection::Previous) => (total - 1) as nat,
        (Some(idx), NavigateDirection::Next) => if idx + 1 >= total {
            0
        } else {
            idx + 1
        },
        (Some(idx), NavigateDirection::Previous) => if idx == 0 {
            (total - 1) as nat
        } else {
            (idx - 1) as nat
        },
    }
}

/// The result of navigating from `focus` in `direction` among `nodes`.
pub open spec fn navigate(
    nodes: Seq<NodeId>,
    focus: Option<NodeId>,
    direction: NavigateDirection,
) -> A11yNavigation {
    if nodes.len() == 0 {
        A11yNavigation { new_focus: None, total_nodes: 0 }
    } else {
        let current = match focus {
            Some(f) => first_index(nodes, f),
            None => None,
        };
        A11yNavigation {
            new_focus: Some(nodes[navigation_index(current, nodes.len(), direction) as int]),
            total_nodes: nodes.len() as usize,
        }
    }
}

/// An operation that collects the focusable accessibility nodes and moves
/// the accessibility focus to the next or previous one.
#[derive(Debug)]
pub struct CollectAndNavigate {
    current_focus: Option<NodeId>,
    direction: NavigateDirection,
    path: TreePath,
    nodes: Vec<NodeId>,
}

/// Produces an operation that moves the accessibility focus to the next
/// node, wrapping from last to first.
pub fn focus_next_a11y_node(current_focus: Option<NodeId>) -> (r: CollectAndNavigate)
    ensures
        r.focus() == current_focus,
        r.direction() == NavigateDirection::Next,
        r.nodes() == Seq::<NodeId>::empty(),
        r.path() == (Seq::<usize>::empty(), seq![0usize]),
{
    CollectAndNavigate {
        current_focus,
        direction: NavigateDirection::Next,
        path: TreePath::new(),
        nodes: Vec::new(),
    }
}

/// Produces an operation that moves the accessibility focus to the previous
/// node, wrapping from first to last.
pub fn focus_previous_a11y_node(current_focus: Option<NodeId>) -> (r: CollectAndNavigate)
    ensures
        r.focus() == current_focus,
        r.direction() == NavigateDirection::Previous,
        r.nodes() == Seq::<NodeId>::empty(),
        r.path() == (Seq::<usize>::empty(), seq![0usize]),
{
    CollectAndNavigate {
        current_focus,
        direction: NavigateDirection::Previous,
        path: TreePath::new(),
        nodes: Vec::new(),
    }
}

impl CollectAndNavigate {
    /// The focus navigation starts from.
    pub closed spec fn focus(&self) -> Option<NodeId> {
        self.current_focus
    }

    /// The direction of navigation.
    pub closed spec fn direction(&self) -> NavigateDirection {
        self.direction
    }

    /// The focusable nodes collected so far.
    pub closed spec fn nodes(&self) -> Seq<NodeId> {
        self.nodes@
    }

    /// The position of the traversal.
    pub closed spec fn path(&self) -> PathView {
        self.path@
    }

    /// Called when the traversal enters a container.
    pub fn container(&mut self)
        ensures
            final(self).path() == entered(old(self).path()),
            final(self).nodes() == old(self).nodes(),
            final(self).focus() == old(self).focus(),
            final(self).direction() == old(self).direction(),
    {
        self.path.enter_container();
    }

    /// Called when the traversal leaves a container.
    pub fn leave_container(&mut self)
        ensures
            final(self).path() == left(old(self).path()),
            final(self).nodes() == old(self).nodes(),
            final(self).focus() == old(self).focus(),
            final(self).direction() == old(self).direction(),
    {
        self.path.leave_container();
    }

    /// Called for a widget that describes itself; only focusable widgets
    /// are collected.
    pub fn accessibility(&mut self, id: Option<Id>, focusable: bool)
        ensures
            final(self).nodes() == if focusable {
                old(self).nodes().push(NodeId(node_value(old(self).path(), id)))
            } else {
                old(self).nodes()
            },
            final(self).path() == counted(old(self).path()),
            final(self).focus() == old(self).focus(),
            final(self).direction() == old(self).direction(),
    {
        if focusable {
            let node_id = self.path.node_id_for(id);
            self.nodes.push(node_id);
        }
        self.path.count_sibling();
    }

    /// Finds the new focus among the collected nodes.
    pub fn finish(&self) -> (r: A11yNavigation)
        ensures
            r == navigate(self.nodes(), self.focus(), self.direction()),
    {
        let total_nodes = self.nodes.len();
        if total_nodes == 0 {
            return A11yNavigation { new_focus: None, total_nodes: 0 };
        }
        let current_index = match self.current_focus {
            Some(focus) => position_of(&self.nodes, focus),
            None => None,
        };
        proof {
            if let Some(f) = self.current_focus {
                lemma_first_index(self.nodes@, f);
            }
        }
        let new_index = match (current_index, self.direction) {
            (None, NavigateDirection::Next) => 0,
            (None, NavigateDirection::Previous) => total_nodes - 1,
            (Some(idx), NavigateDirection::Next) => {
                if idx + 1 >= total_nodes {
                    0
                } else {
                    idx + 1
                }
            },
            (Some(idx), NavigateDirection::Previous) => {
                if idx == 0 {
                    total_nodes - 1
                } else {
                    idx - 1
                }
            },
        };
        A11yNavigation { new_focus: Some(self.nodes[new_index]), total_nodes }
    }
}

proof fn lemma_first_index(nodes: Seq<NodeId>, id: NodeId)
    ensures
        first_index(nodes, id) matches Some(k) ==> k < nodes.len() && nodes[k as int] == id
            && forall|j: int| 0 <= j < k ==> nodes[j] != id,
        first_index(nodes, id) is None ==> forall|j: int| 0 <= j < nodes.len() ==> nodes[j] != id,
    decreases nodes.len(),
{
    if nodes.len() > 0 {
        lemma_first_index(nodes.drop_first(), id);
        assert forall|j: int| 0 < j < nodes.len() implies nodes[j] == nodes.drop_first()[j - 1] by {}
    }
}

/// The position of the first occurrence of `id` in `nodes`.
fn position_of(nodes: &Vec<NodeId>, id: NodeId) -> (r: Option<usize>)
    ensures
        opt_index(r) == first_index(nodes@, id),
{
    let mut i: usize = 0;
    while i < nodes.len()
        invariant
            i <= nodes@.len(),
            forall|j: int| 0 <= j < i ==> nodes@[j] != id,
        decreases nodes@.len() - i,
    {
        if nodes[i].0 == id.0 {
            proof {
                lemma_first_index_of(nodes@, id, i as nat);
            }
            return Some(i);
        }
        i = i + 1;
    }
    proof {
        lemma_first_index(nodes@, id);
        if let Some(k) = first_index(nodes@, id) {
            assert(nodes@[k as int] == id);
        }
    }
    None
}

/// An optional index as a natural number.
pub open spec fn opt_index(o: Option<usize>) -> Option<nat> {
    match o {
        Some(v) => Some(v as nat),
        None => None,
    }
}

proof fn lemma_first_index_of(nodes: Seq<NodeId>, id: NodeId, k: nat)
    requires
        k < nodes.len(),
        nodes[k as int] == id,
        forall|j: int| 0 <= j < k ==> nodes[j] != id,
    ensures
        first_index(nodes, id) == Some(k),
    decreases k,
{
    if k > 0 {
        lemma_first_index_of(nodes.drop_first(), id, (k - 1) as nat);
    }
}

/// The nodes are pairwise distinct.
pub open spec fn distinct_nodes(nodes: Seq<NodeId>) -> bool {
    forall|i: int, j: int| 0 <= i < j < nodes.len() ==> nodes[i] != nodes[j]
}

/// Among distinct focusable nodes, navigating back undoes navigating forward
/// from a node that is present, and navigating forward undoes navigating back.
pub proof fn law_navigation_round_trip(nodes: Seq<NodeId>, focus: NodeId)
    requires
        distinct_nodes(nodes),
        nodes.contains(focus),
    ensures
        navigate(nodes, navigate(nodes, Some(focus), NavigateDirection::Next).new_focus, NavigateDirection::Previous).new_focus
            == Some(focus),
        navigate(nodes, navigate(nodes, Some(focus), NavigateDirection::Previous).new_focus, NavigateDirection::Next).new_focus
            == Some(focus),
{
    let k = choose|k: int| 0 <= k < nodes.len() && nodes[k] == focus;
    assert forall|j: int| 0 <= j < nodes.len() implies first_index(nodes, nodes[j]) == Some(
        j as nat,
    ) by {
        lemma_first_index_of(nodes, nodes[j], j as nat);
    }
    assert(first_index(nodes, focus) == Some(k as nat));
}

/// Navigating from no focus, or from a node that is not present, lands on
/// the first node going forward and on the last going back.
pub proof fn law_navigation_from_outside(nodes: Seq<NodeId>, focus: Option<NodeId>)
    requires
        nodes.len() > 0,
        focus matches Some(f) ==> !nodes.contains(f),
    ensures
        navigate(nodes, focus, NavigateDirection::Next).new_focus == Some(nodes[0]),
        navigate(nodes, focus, NavigateDirection::Previous).new_focus == Some(nodes.last()),
{
    if let Some(f) = focus {
        lemma_first_index(nodes, f);
        if let Some(k) = first_index(nodes, f) {
            assert(nodes[k as int] == f);
        }
    }
}

// ============================================================================
// Finding the focused node
// ============================================================================

/// An operation that finds the currently focused accessibility node, using
/// the same node identifiers as the collection of the tree.
#[derive(Debug)]
pub struct FindFocused {
    path: TreePath,
    pending_node_id: Option<NodeId>,
    focused: Option<NodeId>,
}

/// Produces an operation that finds the currently focused accessibility node.
pub fn find_focused_node() -> (r: FindFocused)
    ensures
        r.path() == (Seq::<usize>::empty(), seq![0usize]),
        r.pending() is None,
        r.focused() is None,
{
    FindFocused { path: TreePath::new(), pending_node_id: None, focused: None }
}

impl FindFocused {
    /// The position of the traversal.
    pub closed spec fn path(&self) -> PathView {
        self.path@
    }

    /// The node identifier of the widget just described, not yet matched
    /// with a focusable state.
    pub closed spec fn pending(&self) -> Option<NodeId> {
        self.pending_node_id
    }

    /// The focused node found so far.
    pub closed spec fn focused(&self) -> Option<NodeId> {
        self.focused
    }

    /// Called when the traversal enters a container.
    pub fn container(&mut self)
        ensures
            final(self).path() == entered(old(self).path()),
            final(self).pending() is None,
            final(self).focused() == old(self).focused(),
    {
        self.pending_node_id = None;
        self.path.enter_container();
    }

    /// Called when the traversal leaves a container.
    pub fn leave_container(&mut self)
        ensures
            final(self).path() == left(old(self).path()),
            final(self).pending() == old(self).pending(),
            final(self).focused() == old(self).focused(),
    {
        self.path.leave_container();
    }

    /// Whether the traversal should descend further: not once the focused
    /// node is found.
    pub fn traverse(&self) -> (r: bool)
        ensures
            r == self.focused() is None,
    {
        self.focused.is_none()
    }

    /// Called for a widget that describes itself.
    pub fn accessibility(&mut self, id: Option<Id>)
        ensures
            final(self).pending() == Some(NodeId(node_value(old(self).path(), id))),
            final(self).path() == counted(old(self).path()),
            final(self).focused() == old(self).focused(),
    {
        let node_id = self.path.node_id_for(id);
        self.pending_node_id = Some(node_id);
        self.path.count_sibling();
    }

    /// Called for a focusable widget; the first focused one is the answer.
    pub fn focusable(&mut self, id: Option<Id>, state: &FocusState)
        ensures
            old(self).focused() is Some || !state.focused ==> final(self).focused() == old(
                self,
            ).focused() && final(self).pending() is None && final(self).path() == if old(
                self,
            ).pending() is None {
                counted(old(self).path())
            } else {
                old(self).path()
            },
            old(self).focused() is None && state.focused ==> final(self).pending() is None
                && final(self).focused() == Some(
                match (id, old(self).pending()) {
                    (Some(_), _) => NodeId(node_value(old(self).path(), id)),
                    (None, Some(p)) => p,
                    (None, None) => NodeId(node_value(old(self).path(), None)),
                },
            ) && final(self).path() == if old(self).pending() is None {
                counted(old(self).path())
            } else {
                old(self).path()
            },
    {
        if self.focused.is_some() || !state.focused {
            if self.pending_node_id.is_none() {
                self.path.count_sibling();
            } else {
                self.pending_node_id = None;
            }
            return;
        }
        let from_accessibility = self.pending_node_id.is_some();
        let pending = self.pending_node_id.take();
        let found = match id {
            Some(id) => node_id_from_widget_id(&id),
            None => match pending {
                Some(p) => p,
                None => self.path.path_based_id(),
            },
        };
        self.focused = Some(found);
        if !from_accessibility {
            self.path.count_sibling();
        }
    }

    /// The focused node, if one was found.
    pub fn finish(&self) -> (r: Option<NodeId>)
        ensures
            r == self.focused(),
    {
        self.focused
    }
}

// ============================================================================
// Finding the node at a position
// ============================================================================

/// An operation that finds the focusable accessibility node at a position;
/// the last (topmost) match wins.
#[derive(Debug)]
pub struct FindAtPosition {
    path: TreePath,
    found: Option<NodeId>,
}

/// Produces an operation that finds the focusable accessibility node at a
/// position. Whether a widget's bounds contain the position is told to
/// [`FindAtPosition::accessibility`] by the traversal.
pub fn find_a11y_node_at_position() -> (r: FindAtPosition)
    ensures
        r.path() == (Seq::<usize>::empty(), seq![0usize]),
        r.found() is None,
{
    FindAtPosition { path: TreePath::new(), found: None }
}

impl FindAtPosition {
    /// The position of the traversal.
    pub closed spec fn path(&self) -> PathView {
        self.path@
    }

    /// The match found so far.
    pub closed spec fn found(&self) -> Option<NodeId> {
        self.found
    }

    /// Called when the traversal enters a container.
    pub fn container(&mut self)
        ensures
            final(self).path() == entered(old(self).path()),
            final(self).found() == old(self).found(),
    {
        self.path.enter_container();
    }

    /// Called when the traversal leaves a container.
    pub fn leave_container(&mut self)
        ensures
            final(self).path() == left(old(self).path()),
            final(self).found() == old(self).found(),
    {
        self.path.leave_container();
    }

    /// Called for a widget that describes itself; `contains_position` tells
    /// whether its bounds contain the position searched for.
    pub fn accessibility(&mut self, id: Option<Id>, focusable: bool, contains_position: bool)
        ensures
            final(self).found() == if focusable && contains_position {
                Some(NodeId(node_value(old(self).path(), id)))
            } else {
                old(self).found()
            },
            final(self).path() == counted(old(self).path()),
    {
        if focusable && contains_position {
            let node_id = self.path.node_id_for(id);
            self.found = Some(node_id);
        }
        self.path.count_sibling();
    }

    /// The node found, if any.
    pub fn finish(&self) -> (r: Option<NodeId>)
        ensures
            r == self.found(),
    {
        self.found
    }
}

// ============================================================================
// Focusing the widget of a node
// ============================================================================

/// An operation that sets the widget focus to the widget of a node.
#[derive(Debug)]
pub struct FocusByNodeId {
    target: NodeId,
    path: TreePath,
    pending_node_id: Option<NodeId>,
}

/// Produces an operation that sets the widget focus to match the given node.
pub fn focus_widget_by_node_id(target_node_id: NodeId) -> (r: FocusByNodeId)
    ensures
        r.target() == target_node_id,
        r.path() == (Seq::<usize>::empty(), seq![0usize]),
        r.pending() is None,
{
    FocusByNodeId { target: target_node_id, path: TreePath::new(), pending_node_id: None }
}

impl FocusByNodeId {
    /// The node whose widget is to be focused.
    pub closed spec fn target(&self) -> NodeId {
        self.target
    }

    /// The position of the traversal.
    pub closed spec fn path(&self) -> PathView {
        self.path@
    }

    /// The node identifier of the widget just described.
    pub closed spec fn pending(&self) -> Option<NodeId> {
        self.pending_node_id
    }

    /// Called when the traversal enters a container.
    pub fn container(&mut self)
        ensures
            final(self).path() == entered(old(self).path()),
            final(self).pending() is None,
            final(self).target() == old(self).target(),
    {
        self.pending_node_id = None;
        self.path.enter_container();
    }

    /// Called when the traversal leaves a container.
    pub fn leave_container(&mut self)
        ensures
            final(self).path() == left(old(self).path()),
            final(self).pending() == old(self).pending(),
            final(self).target() == old(self).target(),
    {
        self.path.leave_container();
    }

    /// Called for a widget that describes itself.
    pub fn accessibility(&mut self, id: Option<Id>)
        ensures
            final(self).pending() == Some(NodeId(node_value(old(self).path(), id))),
            final(self).path() == counted(old(self).path()),
            final(self).target() == old(self).target(),
    {
        let node_id = self.path.node_id_for(id);
        self.pending_node_id = Some(node_id);
        self.path.count_sibling();
    }

    /// Called for a focusable widget: it is focused when its node is the
    /// target, and unfocused otherwise.
    pub fn focusable(&mut self, id: Option<Id>, state: &mut FocusState)
        ensures
            ({
                let node = match old(self).pending() {
                    Some(p) => p,
                    None => NodeId(node_value(old(self).path(), id)),
                };
                *final(state) == old(state).with_focused(node == old(self).target())
            }),
            final(self).pending() is None,
            final(self).target() == old(self).target(),
            final(self).path() == if old(self).pending() is None {
                counted(old(self).path())
            } else {
                old(self).path()
            },
    {
        let from_accessibility = self.pending_node_id.is_some();
        let node_id = match self.pending_node_id.take() {
            Some(p) => p,
            None => self.path.node_id_for(id),
        };
        if node_id.0 == self.target.0 {
            state.focus();
        } else {
            state.unfocus();
        }
        if !from_accessibility {
            self.path.count_sibling();
        }
    }
}


// ============================================================================
// Collecting the accessibility tree
// ============================================================================

/// A collected accessibility tree fragment: the identifiers of its nodes.
///
/// The nodes themselves are built by the shell that integrates with an
/// accessibility backend, from the [`NodeLayout`] of each widget.
#[derive(Debug)]
pub struct AccessibilityTree {
    /// All collected node identifiers (both top-level widget nodes and
    /// generated child nodes), in the order they were collected.
    pub nodes: Vec<NodeId>,
    /// Identifiers of top-level widget nodes that should be direct children
    /// of the root. Extra generated children are NOT included here.
    pub top_level_ids: Vec<NodeId>,
    /// A mapping from node identifier value to widget [`Id`], when available.
    pub widgets: BTreeMap<u64, Id>,
}

/// The identifiers a collected widget node is built with.
#[derive(Debug)]
pub struct NodeLayout {
    /// The identifier of the widget's node.
    pub node_id: NodeId,
    /// The identifiers of its generated extra children, in order.
    pub extra_child_ids: Vec<NodeId>,
    /// The node that text selection positions point to.
    pub selection_node: NodeId,
    /// The children of the node: the widget's own, then the extra ones.
    pub children: Vec<NodeId>,
}

/// The identifiers of the extra children of `node`.
pub open spec fn extra_ids(node: NodeId, count: nat) -> Seq<NodeId> {
    Seq::new(count, |i: int| NodeId(avoid_reserved(pair_hash(node.0, i as u64))))
}

/// The node that text selection points to.
pub open spec fn selection_for(node: NodeId, extra: Seq<NodeId>, target: TextSelectionTarget) -> NodeId {
    match target {
        TextSelectionTarget::ThisNode => node,
        TextSelectionTarget::ExtraChild(i) => if i < extra.len() {
            extra[i as int]
        } else {
            node
        },
    }
}

/// The values of a sequence of node identifiers.
pub open spec fn values_of(ids: Seq<NodeId>) -> Set<u64> {
    Set::new(|v: u64| exists|i: int| 0 <= i < ids.len() && #[trigger] ids[i].0 == v)
}

proof fn lemma_values_push(s: Seq<NodeId>, x: NodeId)
    ensures
        values_of(s.push(x)) == values_of(s).insert(x.0),
{
    assert forall|v: u64| values_of(s.push(x)).contains(v) <==> values_of(s).insert(x.0).contains(v) by {
        if values_of(s.push(x)).contains(v) {
            let i = choose|i: int| 0 <= i < s.push(x).len() && #[trigger] s.push(x)[i].0 == v;
            if i < s.len() {
                assert(s[i].0 == v);
            }
        }
        if values_of(s).contains(v) {
            let i = choose|i: int| 0 <= i < s.len() && #[trigger] s[i].0 == v;
            assert(s.push(x)[i].0 == v);
        }
        if v == x.0 {
            assert(s.push(x)[s.len() as int].0 == v);
        }
    }
    assert(values_of(s.push(x)) =~= values_of(s).insert(x.0));
}

/// The top-level identifiers that no collected node references as a child.
pub open spec fn unreferenced(top: Seq<NodeId>, referenced: Set<u64>) -> Seq<NodeId> {
    top.filter(|n: NodeId| !referenced.contains(n.0))
}

/// An operation that collects accessibility information from the widget tree.
#[derive(Debug)]
pub struct Collect {
    path: TreePath,
    tree: AccessibilityTree,
    referenced_children: HashSet<u64>,
}

/// Produces an operation that collects accessibility information from the
/// widget tree.
pub fn collect() -> (r: Collect)
    ensures
        r.path() == (Seq::<usize>::empty(), seq![0usize]),
        r.nodes() == Seq::<NodeId>::empty(),
        r.top_level() == Seq::<NodeId>::empty(),
        r.widgets() == Map::<u64, Id>::empty(),
        r.referenced() == Set::<u64>::empty(),
{
    Collect {
        path: TreePath::new(),
        tree: AccessibilityTree {
            nodes: Vec::new(),
            top_level_ids: Vec::new(),
            widgets: BTreeMap::new(),
        },
        referenced_children: HashSet::new(),
    }
}

impl Collect {
    /// The position of the traversal.
    pub closed spec fn path(&self) -> PathView {
        self.path@
    }

    /// The node identifiers collected so far.
    pub closed spec fn nodes(&self) -> Seq<NodeId> {
        self.tree.nodes@
    }

    /// The widget nodes collected so far.
    pub closed spec fn top_level(&self) -> Seq<NodeId> {
        self.tree.top_level_ids@
    }

    /// The widget identifiers of the collected nodes.
    pub closed spec fn widgets(&self) -> Map<u64, Id> {
        self.tree.widgets@
    }

    /// The identifiers referenced as children by some collected node.
    pub closed spec fn referenced(&self) -> Set<u64> {
        self.referenced_children@
    }

    /// Called when the traversal enters a container.
    pub fn container(&mut self)
        ensures
            final(self).path() == entered(old(self).path()),
            final(self).nodes() == old(self).nodes(),
            final(self).top_level() == old(self).top_level(),
            final(self).widgets() == old(self).widgets(),
            final(self).referenced() == old(self).referenced(),
    {
        self.path.enter_container();
    }

    /// Called when the traversal leaves a container.
    pub fn leave_container(&mut self)
        ensures
            final(self).path() == left(old(self).path()),
            final(self).nodes() == old(self).nodes(),
            final(self).top_level() == old(self).top_level(),
            final(self).widgets() == old(self).widgets(),
            final(self).referenced() == old(self).referenced(),
    {
        self.path.leave_container();
    }

    /// Called for a widget that describes itself, with the children it
    /// names, the number of extra children it generates and where its text
    /// selection points. Records the node and returns the identifiers it is
    /// built with.
    #[verifier::loop_isolation(false)]
    pub fn accessibility(
        &mut self,
        id: Option<Id>,
        children: Vec<NodeId>,
        extra_children: usize,
        target: TextSelectionTarget,
    ) -> (r: NodeLayout)
        ensures
            r.node_id == NodeId(node_value(old(self).path(), id)),
            r.extra_child_ids@ == extra_ids(r.node_id, extra_children as nat),
            r.selection_node == selection_for(r.node_id, r.extra_child_ids@, target),
            r.children@ == children@ + r.extra_child_ids@,
            final(self).nodes() == old(self).nodes().push(r.node_id) + r.extra_child_ids@,
            final(self).top_level() == old(self).top_level().push(r.node_id),
            final(self).widgets() == match id {
                Some(w) => old(self).widgets().insert(r.node_id.0, w),
                None => old(self).widgets(),
            },
            final(self).referenced() == old(self).referenced() + values_of(r.children@),
            final(self).path() == counted(old(self).path()),
    {
        broadcast use vstd::std_specs::hash::group_hash_axioms;
        broadcast use vstd::std_specs::btree::group_btree_axioms;

        let node_id = self.path.node_id_for(id);
        if let Some(id) = id {
            let _ = self.tree.widgets.insert(node_id.0, id);
        }
        let mut extra_child_ids: Vec<NodeId> = Vec::new();
        let mut index: usize = 0;
        while index < extra_children
            invariant
                index <= extra_children,
                extra_child_ids@ == extra_ids(node_id, index as nat),
            decreases extra_children - index,
        {
            let child_id = derived_node_id(node_id, index as u64);
            extra_child_ids.push(child_id);
            index = index + 1;
            assert(extra_child_ids@ =~= extra_ids(node_id, index as nat));
        }
        let selection_node = match target {
            TextSelectionTarget::ThisNode => node_id,
            TextSelectionTarget::ExtraChild(i) => {
                if i < extra_child_ids.len() {
                    extra_child_ids[i]
                } else {
                    node_id
                }
            },
        };
        let mut combined: Vec<NodeId> = children;
        let ghost own = combined@;
        let mut k: usize = 0;
        while k < extra_child_ids.len()
            invariant
                k <= extra_child_ids@.len(),
                combined@ == own + extra_child_ids@.take(k as int),
            decreases extra_child_ids@.len() - k,
        {
            combined.push(extra_child_ids[k]);
            k = k + 1;
            assert(combined@ =~= own + extra_child_ids@.take(k as int));
        }
        assert(extra_child_ids@.take(extra_child_ids@.len() as int) =~= extra_child_ids@);
        let ghost before = self.referenced_children@;
        let ghost nodes0 = self.tree.nodes@;
        let ghost top0 = self.tree.top_level_ids@;
        let ghost widgets0 = self.tree.widgets@;
        let ghost path0 = self.path@;
        let mut c: usize = 0;
        while c < combined.len()
            invariant
                c <= combined@.len(),
                self.tree.nodes@ == nodes0,
                self.tree.top_level_ids@ == top0,
                self.tree.widgets@ == widgets0,
                self.path@ == path0,
                self.referenced_children@ == before + values_of(combined@.take(c as int)),
            decreases combined@.len() - c,
        {
            let _ = self.referenced_children.insert(combined[c].0);
            c = c + 1;
            proof {
                assert(combined@.take(c as int) =~= combined@.take(c - 1).push(combined@[c - 1]));
                lemma_values_push(combined@.take(c - 1), combined@[c - 1]);
                assert(self.referenced_children@ =~= before + values_of(combined@.take(c as int)));
            }
        }
        assert(combined@.take(combined@.len() as int) =~= combined@);
        self.tree.nodes.push(node_id);
        self.tree.top_level_ids.push(node_id);
        let ghost pushed = self.tree.nodes@;
        let ghost top1 = self.tree.top_level_ids@;
        let ghost refs1 = self.referenced_children@;
        let mut e: usize = 0;
        while e < extra_child_ids.len()
            invariant
                e <= extra_child_ids@.len(),
                self.tree.top_level_ids@ == top1,
                self.tree.widgets@ == widgets0,
                self.referenced_children@ == refs1,
                self.path@ == path0,
                self.tree.nodes@ == pushed + extra_child_ids@.take(e as int),
            decreases extra_child_ids@.len() - e,
        {
            self.tree.nodes.push(extra_child_ids[e]);
            e = e + 1;
            assert(self.tree.nodes@ =~= pushed + extra_child_ids@.take(e as int));
        }
        self.path.count_sibling();
        NodeLayout { node_id, extra_child_ids, selection_node, children: combined }
    }

    /// The collected tree, keeping as top-level only the nodes that no
    /// collected node references as a child.
    pub fn finish(&self) -> (r: AccessibilityTree)
        ensures
            r.nodes@ == self.nodes(),
            r.top_level_ids@ == unreferenced(self.top_level(), self.referenced()),
            r.widgets@ == self.widgets(),
    {
        broadcast use vstd::std_specs::hash::group_hash_axioms;

        let mut nodes: Vec<NodeId> = Vec::new();
        let mut i: usize = 0;
        while i < self.tree.nodes.len()
            invariant
                i <= self.tree.nodes@.len(),
                nodes@ == self.tree.nodes@.take(i as int),
            decreases self.tree.nodes@.len() - i,
        {
            nodes.push(self.tree.nodes[i]);
            i = i + 1;
            assert(nodes@ =~= self.tree.nodes@.take(i as int));
        }
        assert(self.tree.nodes@.take(self.tree.nodes@.len() as int) =~= self.tree.nodes@);
        let ghost referenced = self.referenced_children@;
        let mut top_level_ids: Vec<NodeId> = Vec::new();
        let mut j: usize = 0;
        while j < self.tree.top_level_ids.len()
            invariant
                j <= self.tree.top_level_ids@.len(),
                referenced == self.referenced_children@,
                top_level_ids@ == unreferenced(self.tree.top_level_ids@.take(j as int), referenced),
            decreases self.tree.top_level_ids@.len() - j,
        {
            let id = self.tree.top_level_ids[j];
            let ghost prefix = self.tree.top_level_ids@.take(j as int);
            assert(self.tree.top_level_ids@.take(j + 1) =~= prefix.push(id));
            reveal_with_fuel(Seq::filter, 1);
            assert(prefix.push(id).drop_last() =~= prefix);
            if !self.referenced_children.contains(&id.0) {
                top_level_ids.push(id);
            }
            j = j + 1;
        }
        assert(self.tree.top_level_ids@.take(self.tree.top_level_ids@.len() as int) =~= self.tree.top_level_ids@);
        AccessibilityTree { nodes, top_level_ids, widgets: self.tree.widgets.clone() }
    }
}


// ============================================================================
// Scroll translations
// ============================================================================

/// The translations that scrollable containers apply to the bounds of their
/// content, as a collection of the tree meets them; `V` is a translation
/// vector. Each entry is the whole translation up to a scrollable; a
/// scrollable's entry applies to the one traversal of its content that
/// follows it, and is dropped when that traversal ends.
#[derive(Debug)]
pub struct ScrollTranslations<V> {
    stack: Vec<V>,
    pending_pops: usize,
}

/// The `n` last entries of `s` dropped (all of them when there are fewer).
pub open spec fn popped<V>(s: Seq<V>, n: nat) -> Seq<V> {
    if n >= s.len() {
        Seq::empty()
    } else {
        s.take(s.len() - n)
    }
}

impl<V> ScrollTranslations<V> {
    /// The whole translations of the enclosing scrollables, innermost last.
    pub closed spec fn stack(&self) -> Seq<V> {
        self.stack@
    }

    /// The entries that the next traversal is to drop when it ends.
    pub closed spec fn pending(&self) -> nat {
        self.pending_pops as nat
    }

    /// No scrollable yet.
    pub fn new() -> (r: Self)
        ensures
            r.stack() == Seq::<V>::empty(),
            r.pending() == 0,
    {
        ScrollTranslations { stack: Vec::new(), pending_pops: 0 }
    }

    /// The translation that applies to the bounds of widgets now: the
    /// innermost scrollable's, or none (no translation) outside any.
    pub fn current(&self) -> (r: Option<&V>)
        ensures
            r == (if self.stack().len() > 0 {
                Some(&self.stack().last())
            } else {
                None
            }),
    {
        if self.stack.len() > 0 {
            Some(&self.stack[self.stack.len() - 1])
        } else {
            None
        }
    }

    /// A scrollable is met; `whole` is its whole translation (the current
    /// one combined with its own), which applies to its content.
    pub fn scrollable(&mut self, whole: V)
        requires
            old(self).pending() < usize::MAX,
        ensures
            final(self).stack() == old(self).stack().push(whole),
            final(self).pending() == old(self).pending() + 1,
    {
        self.stack.push(whole);
        self.pending_pops = self.pending_pops + 1;
    }

    /// A traversal of content begins: it takes the entries of the
    /// scrollables met just before it, which it is to drop when it ends.
    pub fn begin_traverse(&mut self) -> (r: usize)
        ensures
            r == old(self).pending(),
            final(self).pending() == 0,
            final(self).stack() == old(self).stack(),
    {
        let pops = self.pending_pops;
        self.pending_pops = 0;
        pops
    }

    /// A traversal of content ends: the entries it took are dropped.
    pub fn end_traverse(&mut self, pops: usize)
        ensures
            final(self).stack() == popped(old(self).stack(), pops as nat),
            final(self).pending() == old(self).pending(),
    {
        let mut i: usize = 0;
        while i < pops
            invariant
                i <= pops,
                self.stack@ == popped(old(self).stack(), i as nat),
                self.pending_pops == old(self).pending_pops,
            decreases pops - i,
        {
            if self.stack.len() > 0 {
                let _ = self.stack.pop();
            }
            proof {
                let s = old(self).stack();
                if i + 1 < s.len() {
                    assert(s.take(s.len() - i).drop_last() =~= s.take(s.len() - (i + 1)));
                }
            }
            i = i + 1;
        }
    }
}

/// A scrollable's translation is scoped to its content: from a stack with
/// nothing pending, meeting scrollables with whole translations `ts`, then
/// traversing their content and ending that traversal, leaves the stack as
/// it was; inside the traversal the innermost of them applies.
pub proof fn law_scroll_translations_are_scoped<V>(s: Seq<V>, ts: Seq<V>)
    requires
        ts.len() > 0,
    ensures
        (s + ts).last() == ts.last(),
        popped(s + ts, ts.len()) == s,
{
    assert((s + ts).take((s + ts).len() - ts.len()) =~= s);
    assert((s + ts)[(s + ts).len() - 1] == ts[ts.len() - 1]);
}

// ============================================================================
// Whole traversals
// ============================================================================

/// One call that a traversal makes on an accessibility operation.
#[derive(Debug)]
pub enum TraversalStep {
    /// The traversal enters a container.
    Enter,
    /// The traversal leaves a container.
    Leave,
    /// A widget describes itself: its identifier, whether it counts for
    /// the operation (it is focusable, or focusable and under the position
    /// looked for), the children it names and the number of extra children
    /// it generates.
    Widget {
        /// The widget's identifier.
        id: Option<Id>,
        /// Whether the widget counts.
        counts: bool,
        /// The children it names.
        children: Vec<NodeId>,
        /// The number of extra children it generates.
        extra: usize,
    },
}

/// The position of a traversal that starts at `v` after the steps.
pub open spec fn path_after(v: PathView, steps: Seq<TraversalStep>) -> PathView
    decreases steps.len(),
{
    if steps.len() == 0 {
        v
    } else {
        let p = path_after(v, steps.drop_last());
        match steps.last() {
            TraversalStep::Enter => entered(p),
            TraversalStep::Leave => left(p),
            TraversalStep::Widget { .. } => counted(p),
        }
    }
}

/// The node of the widget at step `k` of a traversal that starts at `v`.
pub open spec fn node_at(v: PathView, steps: Seq<TraversalStep>, k: int) -> NodeId {
    NodeId(node_value(path_after(v, steps.take(k)), steps[k]->id))
}

/// The nodes of the widgets that count, in the order the traversal meets
/// them: what the navigation operations collect, step by step.
pub open spec fn counted_nodes(v: PathView, steps: Seq<TraversalStep>) -> Seq<NodeId>
    decreases steps.len(),
{
    if steps.len() == 0 {
        Seq::empty()
    } else {
        let prior = counted_nodes(v, steps.drop_last());
        match steps.last() {
            TraversalStep::Widget { id, counts, .. } => if counts {
                prior.push(NodeId(node_value(path_after(v, steps.drop_last()), id)))
            } else {
                prior
            },
            _ => prior,
        }
    }
}

/// The node that the search for a position has found after the steps, step
/// by step as [`FindAtPosition`] records it.
pub open spec fn found_after(v: PathView, steps: Seq<TraversalStep>) -> Option<NodeId>
    decreases steps.len(),
{
    if steps.len() == 0 {
        None
    } else {
        let prior = found_after(v, steps.drop_last());
        match steps.last() {
            TraversalStep::Widget { id, counts, .. } => if counts {
                Some(NodeId(node_value(path_after(v, steps.drop_last()), id)))
            } else {
                prior
            },
            _ => prior,
        }
    }
}

/// The node of a widget with an explicit identifier.
pub open spec fn explicit_node(x: Id) -> NodeId {
    NodeId(avoid_reserved(key_hash(x.0)))
}

/// The nodes of the widgets that count, when each of them has an explicit
/// identifier.
pub open spec fn explicit_counted_nodes(steps: Seq<TraversalStep>) -> Seq<NodeId>
    decreases steps.len(),
{
    if steps.len() == 0 {
        Seq::empty()
    } else {
        let prior = explicit_counted_nodes(steps.drop_last());
        match steps.last() {
            TraversalStep::Widget { id: Some(x), counts: true, .. } => prior.push(explicit_node(x)),
            _ => prior,
        }
    }
}

/// A widget with an explicit identifier has the same node wherever it is
/// in the tree: the node derived from its identifier.
pub proof fn law_explicit_ids_ignore_position(v: PathView, w: PathView, x: Id)
    ensures
        node_value(v, Some(x)) == node_value(w, Some(x)),
        NodeId(node_value(v, Some(x))) == explicit_node(x),
{
}

/// When every widget that counts has an explicit identifier, the nodes
/// collected are the nodes of those identifiers, in order, wherever the
/// widgets are in the tree.
pub proof fn law_counted_nodes_of_explicit_ids(v: PathView, steps: Seq<TraversalStep>)
    requires
        forall|k: int|
            0 <= k < steps.len() && (#[trigger] steps[k]) is Widget && steps[k]->counts
                ==> steps[k]->id is Some,
    ensures
        counted_nodes(v, steps) == explicit_counted_nodes(steps),
    decreases steps.len(),
{
    if steps.len() > 0 {
        let d = steps.drop_last();
        assert forall|k: int|
            0 <= k < d.len() && (#[trigger] d[k]) is Widget && d[k]->counts implies d[k]->id is Some by {
            assert(d[k] == steps[k]);
        }
        law_counted_nodes_of_explicit_ids(v, d);
        assert(steps[steps.len() - 1] == steps.last());
    }
}

/// The search for a position finds the last widget that counts (focusable
/// and under the position), the topmost one; it finds none when no widget
/// counts.
pub proof fn law_position_search_finds_last_match(v: PathView, steps: Seq<TraversalStep>)
    ensures
        found_after(v, steps) == if counted_nodes(v, steps).len() > 0 {
            Some(counted_nodes(v, steps).last())
        } else {
            None::<NodeId>
        },
    decreases steps.len(),
{
    if steps.len() > 0 {
        law_position_search_finds_last_match(v, steps.drop_last());
    }
}

/// Navigating forward among `n` collected nodes moves to the node after the
/// first occurrence of the current focus, wrapping modulo `n`, or to the
/// first node when the focus is absent or not among them; the total is `n`.
pub proof fn law_navigation_next(nodes: Seq<NodeId>, cur: Option<NodeId>)
    requires
        nodes.len() <= usize::MAX,
    ensures
        navigate(nodes, cur, NavigateDirection::Next).total_nodes == nodes.len(),
        nodes.len() == 0 ==> navigate(nodes, cur, NavigateDirection::Next).new_focus is None,
        nodes.len() > 0 ==> navigate(nodes, cur, NavigateDirection::Next).new_focus == Some(
            match cur {
                Some(f) => match first_index(nodes, f) {
                    Some(i) => nodes[((i + 1) as int) % (nodes.len() as int)],
                    None => nodes[0],
                },
                None => nodes[0],
            },
        ),
{
    if let Some(f) = cur {
        lemma_first_index(nodes, f);
        if let Some(i0) = first_index(nodes, f) {
            let i = i0 as int;
            let n = nodes.len() as int;
            if i + 1 < n {
                assert((i + 1) % n == i + 1) by (nonlinear_arith)
                    requires
                        0 <= i + 1 < n,
                ;
            } else {
                assert((i + 1) % n == 0) by (nonlinear_arith)
                    requires
                        i + 1 == n,
                        n > 0,
                ;
            }
        }
    }
}

/// Navigating backward among `n` collected nodes moves to the node before
/// the first occurrence of the current focus, wrapping modulo `n`, or to the
/// last node when the focus is absent or not among them; the total is `n`.
pub proof fn law_navigation_previous(nodes: Seq<NodeId>, cur: Option<NodeId>)
    requires
        nodes.len() <= usize::MAX,
    ensures
        navigate(nodes, cur, NavigateDirection::Previous).total_nodes == nodes.len(),
        nodes.len() == 0 ==> navigate(nodes, cur, NavigateDirection::Previous).new_focus is None,
        nodes.len() > 0 ==> navigate(nodes, cur, NavigateDirection::Previous).new_focus == Some(
            match cur {
                Some(f) => match first_index(nodes, f) {
                    Some(i) => nodes[((i + nodes.len()) as int - 1) % (nodes.len() as int)],
                    None => nodes[nodes.len() - 1],
                },
                None => nodes[nodes.len() - 1],
            },
        ),
{
    if let Some(f) = cur {
        lemma_first_index(nodes, f);
        if let Some(i0) = first_index(nodes, f) {
            let i = i0 as int;
            let n = nodes.len() as int;
            if i == 0 {
                assert((i + n - 1) % n == n - 1) by (nonlinear_arith)
                    requires
                        i == 0,
                        n > 0,
                ;
            } else {
                assert((i + n - 1) % n == i - 1) by (nonlinear_arith)
                    requires
                        1 <= i < n,
                ;
            }
        }
    }
}

/// What a tree collection holds after the steps, step by step as
/// [`Collect`] records it: all node identifiers (each widget's node, then
/// its extra children), the widget nodes, the identifiers named as
/// children, and the widgets of nodes with explicit identifiers.
pub open spec fn collected(v: PathView, steps: Seq<TraversalStep>) -> (
    Seq<NodeId>,
    Seq<NodeId>,
    Set<u64>,
    Map<u64, Id>,
)
    decreases steps.len(),
{
    if steps.len() == 0 {
        (Seq::empty(), Seq::empty(), Set::empty(), Map::empty())
    } else {
        let (nodes, top, refs, widgets) = collected(v, steps.drop_last());
        match steps.last() {
            TraversalStep::Widget { id, children, extra, .. } => {
                let node = NodeId(node_value(path_after(v, steps.drop_last()), id));
                let extras = extra_ids(node, extra as nat);
                (
                    nodes.push(node) + extras,
                    top.push(node),
                    refs + values_of(children@ + extras),
                    match id {
                        Some(w) => widgets.insert(node.0, w),
                        None => widgets,
                    },
                )
            },
            _ => (nodes, top, refs, widgets),
        }
    }
}

/// The node of an earlier widget is the same before and after more steps.
proof fn lemma_node_at_prefix(v: PathView, steps: Seq<TraversalStep>, k: int)
    requires
        0 <= k < steps.len() - 1,
    ensures
        node_at(v, steps, k) == node_at(v, steps.drop_last(), k),
        steps[k] == steps.drop_last()[k],
{
    assert(steps.take(k) =~= steps.drop_last().take(k));
}

/// Every generated extra child is among the collected nodes and among the
/// identifiers named as children.
proof fn lemma_collected_extra(v: PathView, steps: Seq<TraversalStep>, k: int, j: int)
    requires
        0 <= k < steps.len(),
        steps[k] is Widget,
        0 <= j < steps[k]->extra,
    ensures
        collected(v, steps).0.contains(extra_ids(node_at(v, steps, k), steps[k]->extra as nat)[j]),
        collected(v, steps).2.contains(extra_ids(node_at(v, steps, k), steps[k]->extra as nat)[j].0),
    decreases steps.len(),
{
    let d = steps.drop_last();
    let n = steps.len() - 1;
    let (nodes, top, refs, widgets) = collected(v, d);
    let e = extra_ids(node_at(v, steps, k), steps[k]->extra as nat)[j];
    if k < n {
        lemma_node_at_prefix(v, steps, k);
        lemma_collected_extra(v, d, k, j);
        let m = choose|m: int| 0 <= m < nodes.len() && nodes[m] == e;
        if let TraversalStep::Widget { id, children, extra, .. } = steps.last() {
            let node = NodeId(node_value(path_after(v, d), id));
            let extras = extra_ids(node, extra as nat);
            assert((nodes.push(node) + extras)[m] == e);
        }
    } else {
        assert(steps.take(k) =~= d);
        if let TraversalStep::Widget { id, children, extra, .. } = steps.last() {
            let node = NodeId(node_value(path_after(v, d), id));
            let extras = extra_ids(node, extra as nat);
            assert((nodes.push(node) + extras)[nodes.len() + 1 + j] == extras[j]);
            assert((children@ + extras)[children@.len() + j] == extras[j]);
        }
    }
}

/// The node of every widget with an explicit identifier is mapped.
proof fn lemma_collected_widget(v: PathView, steps: Seq<TraversalStep>, k: int)
    requires
        0 <= k < steps.len(),
        steps[k] is Widget,
        steps[k]->id is Some,
    ensures
        collected(v, steps).3.dom().contains(node_at(v, steps, k).0),
    decreases steps.len(),
{
    let n = steps.len() - 1;
    if k < n {
        lemma_node_at_prefix(v, steps, k);
        lemma_collected_widget(v, steps.drop_last(), k);
    } else {
        assert(steps.take(k) =~= steps.drop_last());
    }
}

/// Every mapped node is the node of the identifier it maps to.
proof fn lemma_collected_keys(v: PathView, steps: Seq<TraversalStep>, key: u64)
    requires
        collected(v, steps).3.dom().contains(key),
    ensures
        key == explicit_node(collected(v, steps).3[key]).0,
    decreases steps.len(),
{
    if steps.len() > 0 {
        let d = steps.drop_last();
        let widgets = collected(v, d).3;
        if let TraversalStep::Widget { id: Some(w), .. } = steps.last() {
            let node = NodeId(node_value(path_after(v, d), Some(w)));
            if key != node.0 {
                lemma_collected_keys(v, d, key);
            }
        } else {
            lemma_collected_keys(v, d, key);
        }
    }
}

/// A whole tree collection: the top-level identifiers are the widget nodes,
/// in order, that no widget names as a child (its own or generated); every
/// generated extra child is among the nodes and not top-level; and every
/// widget with an explicit identifier has its node mapped to a widget
/// identifier with that node, its own when no two explicit identifiers of
/// the traversal share a node.
pub proof fn law_collected_tree(v: PathView, steps: Seq<TraversalStep>)
    ensures
        ({
            let (nodes, top, refs, widgets) = collected(v, steps);
            &&& unreferenced(top, refs) == top.filter(|n: NodeId| !refs.contains(n.0))
            &&& forall|k: int, j: int|
                0 <= k < steps.len() && (#[trigger] steps[k]) is Widget && 0 <= j
                    < steps[k]->extra ==> nodes.contains(
                    #[trigger] extra_ids(node_at(v, steps, k), steps[k]->extra as nat)[j],
                ) && !unreferenced(top, refs).contains(
                    extra_ids(node_at(v, steps, k), steps[k]->extra as nat)[j],
                )
            &&& forall|k: int|
                0 <= k < steps.len() && (#[trigger] steps[k]) is Widget && steps[k]->id is Some
                    ==> widgets.dom().contains(explicit_node(steps[k]->id->0).0) && explicit_node(
                    widgets[explicit_node(steps[k]->id->0).0],
                ) == explicit_node(steps[k]->id->0)
        }),
{
    let (nodes, top, refs, widgets) = collected(v, steps);
    assert forall|k: int, j: int|
        0 <= k < steps.len() && (#[trigger] steps[k]) is Widget && 0 <= j < steps[k]->extra implies nodes.contains(
        #[trigger] extra_ids(node_at(v, steps, k), steps[k]->extra as nat)[j],
    ) by {
        lemma_collected_extra(v, steps, k, j);
    }
    assert forall|k: int, j: int|
        0 <= k < steps.len() && (#[trigger] steps[k]) is Widget && 0 <= j
            < steps[k]->extra implies !unreferenced(top, refs).contains(
        #[trigger] extra_ids(node_at(v, steps, k), steps[k]->extra as nat)[j],
    ) by {
        let e = extra_ids(node_at(v, steps, k), steps[k]->extra as nat)[j];
        lemma_collected_extra(v, steps, k, j);
        assert(refs.contains(e.0));
        let pred = |n: NodeId| !refs.contains(n.0);
        if unreferenced(top, refs).contains(e) {
            let m = choose|m: int|
                0 <= m < unreferenced(top, refs).len() && unreferenced(top, refs)[m] == e;
            top.filter_lemma(pred);
            assert(pred(unreferenced(top, refs)[m]));
        }
    }
    assert forall|k: int|
        0 <= k < steps.len() && (#[trigger] steps[k]) is Widget && steps[k]->id is Some implies widgets.dom().contains(explicit_node(steps[k]->id->0).0) && explicit_node(
        widgets[explicit_node(steps[k]->id->0).0],
    ) == explicit_node(steps[k]->id->0) by {
        assert(node_at(v, steps, k) == explicit_node(steps[k]->id->0));
        lemma_collected_widget(v, steps, k);
        lemma_collected_keys(v, steps, explicit_node(steps[k]->id->0).0);
    }
}

/// One call that a traversal makes on the search for the focused node.
#[derive(Debug)]
pub enum FocusSearchStep {
    /// The traversal enters a container.
    Enter,
    /// The traversal leaves a container.
    Leave,
    /// A widget describes itself.
    Describe(Option<Id>),
    /// A focusable widget reports whether it is focused.
    Focusable(Option<Id>, bool),
}

/// What the search for the focused node holds after the steps, step by
/// step as [`FindFocused`] records it: its position, the node of the widget
/// just described, and the focused node found.
pub open spec fn focus_search_after(v: PathView, steps: Seq<FocusSearchStep>) -> (
    PathView,
    Option<NodeId>,
    Option<NodeId>,
)
    decreases steps.len(),
{
    if steps.len() == 0 {
        (v, None, None)
    } else {
        let (p, pending, found) = focus_search_after(v, steps.drop_last());
        match steps.last() {
            FocusSearchStep::Enter => (entered(p), None, found),
            FocusSearchStep::Leave => (left(p), pending, found),
            FocusSearchStep::Describe(id) => (counted(p), Some(NodeId(node_value(p, id))), found),
            FocusSearchStep::Focusable(id, focused) => {
                let next = if pending is None {
                    counted(p)
                } else {
                    p
                };
                if found is Some || !focused {
                    (next, None, found)
                } else {
                    (
                        next,
                        None,
                        Some(
                            match (id, pending) {
                                (Some(_), _) => NodeId(node_value(p, id)),
                                (None, Some(q)) => q,
                                (None, None) => NodeId(node_value(p, None)),
                            },
                        ),
                    )
                }
            },
        }
    }
}

/// Step `k` is a focusable widget that reports it is focused.
pub open spec fn reports_focus(step: FocusSearchStep) -> bool {
    step matches FocusSearchStep::Focusable(_, true)
}

/// The search for the focused node finds nothing when no focusable widget
/// is focused; otherwise the first focused one decides, and when it has an
/// explicit identifier the node found is the node of that identifier.
pub proof fn law_focus_search_finds_first_focused(v: PathView, steps: Seq<FocusSearchStep>)
    ensures
        (forall|k: int| 0 <= k < steps.len() ==> !reports_focus(#[trigger] steps[k]))
            ==> focus_search_after(v, steps).2 is None,
        forall|k: int|
            0 <= k < steps.len() && reports_focus(#[trigger] steps[k]) && (forall|j: int|
                0 <= j < k ==> !reports_focus(steps[j])) && steps[k]->Focusable_0 is Some ==> focus_search_after(
                v,
                steps,
            ).2 == Some(explicit_node(steps[k]->Focusable_0->0)),
    decreases steps.len(),
{
    if steps.len() > 0 {
        let d = steps.drop_last();
        let n = steps.len() - 1;
        law_focus_search_finds_first_focused(v, d);
        assert forall|k: int| 0 <= k < n implies #[trigger] steps[k] == d[k] by {}
        if forall|k: int| 0 <= k < n ==> !reports_focus(#[trigger] d[k]) {
            assert(focus_search_after(v, d).2 is None);
        }
        assert forall|k: int|
            0 <= k < steps.len() && reports_focus(#[trigger] steps[k]) && (forall|j: int|
                0 <= j < k ==> !reports_focus(steps[j])) && steps[k]->Focusable_0 is Some implies focus_search_after(v, steps).2 == Some(explicit_node(steps[k]->Focusable_0->0)) by {
            if k < n {
                assert(reports_focus(d[k]));
                assert(focus_search_after(v, d).2 == Some(explicit_node(d[k]->Focusable_0->0)));
            } else {
                assert forall|j: int| 0 <= j < n implies !reports_focus(#[trigger] d[j]) by {
                    assert(d[j] == steps[j]);
                }
            }
        }
    }
}

} // verus!
