//! Operate on widgets that can be focused.
//!
//! A traversal of the widget tree visits the focusable widgets in order; the
//! operations here take that sequence of widget states and return or apply
//! what the operation decides for each of them.
use vstd::prelude::*;

use crate::widget::Id;

verus! {

/// Controls which widgets participate in Tab navigation.
///
/// This mirrors macOS "Full Keyboard Access" behavior.
#[derive(Debug, Clone, Copy, PartialEq, Eq, Default, Structural)]
pub enum FocusLevel {
    /// Only text inputs and editors receive Tab focus (macOS default behavior).
    TextOnly,
    /// All interactive widgets receive Tab focus (full keyboard access).
    #[default]
    AllControls,
    /// No automatic Tab navigation (app handles focus manually).
    Manual,
}

/// The focus tier of a widget, used with [`FocusLevel`] to filter Tab navigation.
#[derive(Debug, Clone, Copy, PartialEq, Eq, PartialOrd, Ord, Default, Structural)]
pub enum FocusTier {
    /// Text inputs and editors — always focusable via Tab.
    Text,
    /// Buttons, checkboxes, sliders — only focusable with [`FocusLevel::AllControls`].
    #[default]
    Control,
}

impl FocusLevel {
    /// Whether a widget of the given tier takes part in Tab navigation at this level.
    pub open spec fn permits(self, tier: FocusTier) -> bool {
        match self {
            FocusLevel::TextOnly => tier == FocusTier::Text,
            FocusLevel::AllControls => true,
            FocusLevel::Manual => false,
        }
    }

    /// Returns whether the given tier should be focusable at this level.
    pub fn allows(self, tier: FocusTier) -> (r: bool)
        ensures
            r == self.permits(tier),
    {
        match self {
            FocusLevel::TextOnly => tier == FocusTier::Text,
            FocusLevel::AllControls => true,
            FocusLevel::Manual => false,
        }
    }
}

/// The internal state of a widget that can be focused.
pub trait Focusable {
    /// Returns whether the widget is focused or not.
    fn is_focused(&self) -> bool;

    /// Focuses the widget.
    fn focus(&mut self);

    /// Unfocuses the widget.
    fn unfocus(&mut self);

    /// Returns the focus tier of this widget.
    ///
    /// Used with [`FocusLevel`] to determine if this widget participates
    /// in Tab navigation.
    fn focus_tier(&self) -> (r: FocusTier)
        default_ensures
            r == FocusTier::Control,
    {
        FocusTier::Control
    }
}

/// The focus state of one focusable widget, as a traversal visits it.
#[derive(Debug, Clone, Copy, PartialEq, Eq, Structural)]
pub struct FocusState {
    /// The identifier of the widget, if it has one.
    pub id: Option<Id>,
    /// Whether the widget is focused.
    pub focused: bool,
    /// The focus tier of the widget.
    pub tier: FocusTier,
}

impl FocusState {
    /// Creates the state of a widget.
    pub fn new(id: Option<Id>, focused: bool, tier: FocusTier) -> (r: Self)
        ensures
            r == (FocusState { id, focused, tier }),
    {
        FocusState { id, focused, tier }
    }

    /// This state with its focus flag replaced.
    pub open spec fn with_focused(self, focused: bool) -> FocusState {
        FocusState { id: self.id, focused, tier: self.tier }
    }
}

impl Focusable for FocusState {
    fn is_focused(&self) -> (r: bool)
        ensures
            r == self.focused,
    {
        self.focused
    }

    fn focus(&mut self)
        ensures
            *final(self) == old(self).with_focused(true),
    {
        self.focused = true;
    }

    fn unfocus(&mut self)
        ensures
            *final(self) == old(self).with_focused(false),
    {
        self.focused = false;
    }

    fn focus_tier(&self) -> (r: FocusTier)
        ensures
            r == self.tier,
    {
        self.tier
    }
}

/// A summary of the focusable widgets present on a widget tree.
#[derive(Debug, Clone, Copy, PartialEq, Eq, Default, Structural)]
pub struct Count {
    /// The index of the current focused widget, if any.
    pub focused: Option<usize>,
    /// The total amount of focusable widgets.
    pub total: usize,
}

// ============================================================================
// Mathematical model
// ============================================================================

/// The number of widgets of `s` that take part in navigation at `level`.
pub open spec fn allowed_count(s: Seq<FocusState>, level: FocusLevel) -> nat
    decreases s.len(),
{
    if s.len() == 0 {
        0
    } else {
        allowed_count(s.drop_last(), level) + if level.permits(s.last().tier) {
            1nat
        } else {
            0nat
        }
    }
}

/// The position of widget `i` among the widgets of `s` that take part in
/// navigation at `level` (the number of such widgets before it).
pub open spec fn rank(s: Seq<FocusState>, level: FocusLevel, i: int) -> nat {
    allowed_count(s.take(i), level)
}

/// The rank of the last focused widget of `s` that takes part in navigation
/// at `level`, if any.
pub open spec fn last_focused_rank(s: Seq<FocusState>, level: FocusLevel) -> Option<nat>
    decreases s.len(),
{
    if s.len() == 0 {
        None
    } else if level.permits(s.last().tier) && s.last().focused {
        Some(allowed_count(s.drop_last(), level))
    } else {
        last_focused_rank(s.drop_last(), level)
    }
}

/// The index of an optional position, as a natural number.
pub open spec fn opt_nat(o: Option<usize>) -> Option<nat> {
    match o {
        Some(v) => Some(v as nat),
        None => None,
    }
}

/// `c` is the count of the widgets of `s` that take part at `level`.
pub open spec fn is_count_of(c: Count, s: Seq<FocusState>, level: FocusLevel) -> bool {
    &&& c.total as nat == allowed_count(s, level)
    &&& opt_nat(c.focused) == last_focused_rank(s, level)
}

/// The new focus flag of the widget at position `current` when moving focus
/// forward without wrapping.
pub open spec fn next_flag(focused: Option<nat>, current: nat, old: bool) -> bool {
    match focused {
        None => if current == 0 {
            true
        } else {
            old
        },
        Some(f) => if f == current {
            false
        } else if f + 1 == current {
            true
        } else {
            old
        },
    }
}

/// The new focus flag of the widget at position `current` when moving focus
/// backward without wrapping.
pub open spec fn previous_flag(focused: Option<nat>, total: nat, current: nat, old: bool) -> bool {
    match focused {
        None => if current == total - 1 {
            true
        } else {
            old
        },
        Some(f) => if f == 0 {
            if current == 0 {
                false
            } else {
                old
            }
        } else if f == current {
            false
        } else if f - 1 == current {
            true
        } else {
            old
        },
    }
}

/// The new focus flag of the widget at position `current` when moving focus
/// forward, wrapping from the last widget to the first.
pub open spec fn next_wrapping_flag(
    focused: Option<nat>,
    total: nat,
    current: nat,
    old: bool,
) -> bool {
    match focused {
        None => if current == 0 {
            true
        } else {
            old
        },
        Some(f) => if f == total - 1 && current == 0 {
            true
        } else if f == current {
            false
        } else if f + 1 == current {
            true
        } else {
            old
        },
    }
}

/// The new focus flag of the widget at position `current` when moving focus
/// backward, wrapping from the first widget to the last.
pub open spec fn previous_wrapping_flag(
    focused: Option<nat>,
    total: nat,
    current: nat,
    old: bool,
) -> bool {
    match focused {
        None => if current == total - 1 {
            true
        } else {
            old
        },
        Some(f) => if f == 0 {
            if current == 0 {
                false
            } else if current == total - 1 {
                true
            } else {
                old
            }
        } else if f == current {
            false
        } else if f - 1 == current {
            true
        } else {
            old
        },
    }
}

/// The states after focusing the widgets whose identifier is `target` and
/// unfocusing all others.
pub open spec fn focus_result(s: Seq<FocusState>, target: Id) -> Seq<FocusState> {
    Seq::new(s.len(), |i: int| s[i].with_focused(s[i].id == Some(target)))
}

/// The states after unfocusing every widget.
pub open spec fn unfocus_result(s: Seq<FocusState>) -> Seq<FocusState> {
    Seq::new(s.len(), |i: int| s[i].with_focused(false))
}

/// The states after moving focus forward without wrapping.
pub open spec fn focus_next_result(s: Seq<FocusState>) -> Seq<FocusState> {
    let focused = last_focused_rank(s, FocusLevel::AllControls);
    Seq::new(s.len(), |i: int| s[i].with_focused(next_flag(focused, i as nat, s[i].focused)))
}

/// The states after moving focus backward without wrapping.
pub open spec fn focus_previous_result(s: Seq<FocusState>) -> Seq<FocusState> {
    let focused = last_focused_rank(s, FocusLevel::AllControls);
    Seq::new(
        s.len(),
        |i: int| s[i].with_focused(previous_flag(focused, s.len(), i as nat, s[i].focused)),
    )
}

/// The states after moving focus forward among the widgets that take part
/// at `level`, wrapping around; other widgets are left alone.
pub open spec fn focus_next_filtered_result(s: Seq<FocusState>, level: FocusLevel) -> Seq<
    FocusState,
> {
    let focused = last_focused_rank(s, level);
    let total = allowed_count(s, level);
    Seq::new(
        s.len(),
        |i: int|
            if level.permits(s[i].tier) {
                s[i].with_focused(next_wrapping_flag(focused, total, rank(s, level, i), s[i].focused))
            } else {
                s[i]
            },
    )
}

/// The states after moving focus backward among the widgets that take part
/// at `level`, wrapping around; other widgets are left alone.
pub open spec fn focus_previous_filtered_result(s: Seq<FocusState>, level: FocusLevel) -> Seq<
    FocusState,
> {
    let focused = last_focused_rank(s, level);
    let total = allowed_count(s, level);
    Seq::new(
        s.len(),
        |i: int|
            if level.permits(s[i].tier) {
                s[i].with_focused(
                    previous_wrapping_flag(focused, total, rank(s, level, i), s[i].focused),
                )
            } else {
                s[i]
            },
    )
}

/// The identifier of the last focused widget of `s` that has one.
pub open spec fn last_focused_id(s: Seq<FocusState>) -> Option<Id>
    decreases s.len(),
{
    if s.len() == 0 {
        None
    } else if s.last().focused && s.last().id is Some {
        s.last().id
    } else {
        last_focused_id(s.drop_last())
    }
}

/// Whether the last widget of `s` whose identifier is `target` is focused,
/// if there is such a widget.
pub open spec fn target_focus(s: Seq<FocusState>, target: Id) -> Option<bool>
    decreases s.len(),
{
    if s.len() == 0 {
        None
    } else if s.last().id == Some(target) {
        Some(s.last().focused)
    } else {
        target_focus(s.drop_last(), target)
    }
}

// ============================================================================
// Lemmas
// ============================================================================

proof fn lemma_take_step(s: Seq<FocusState>, i: int)
    requires
        0 <= i < s.len(),
    ensures
        s.take(i + 1).drop_last() == s.take(i),
        s.take(i + 1).last() == s[i],
{
    assert(s.take(i + 1).drop_last() =~= s.take(i));
}

/// Ranks grow along the sequence.
proof fn lemma_rank_monotone(s: Seq<FocusState>, level: FocusLevel, i: int, j: int)
    requires
        0 <= i <= j <= s.len(),
    ensures
        allowed_count(s.take(i), level) <= allowed_count(s.take(j), level),
    decreases j - i,
{
    if i < j {
        lemma_rank_monotone(s, level, i, j - 1);
        lemma_take_step(s, j - 1);
    }
}

/// A widget that takes part has a rank below the total, and a later widget
/// that takes part has a greater rank.
proof fn lemma_rank_facts(s: Seq<FocusState>, level: FocusLevel, i: int)
    requires
        0 <= i < s.len(),
        level.permits(s[i].tier),
    ensures
        rank(s, level, i) < allowed_count(s, level),
        forall|j: int| i < j < s.len() ==> rank(s, level, i) < rank(s, level, j),
        rank(s, level, i + 1) == rank(s, level, i) + 1,
{
    lemma_take_step(s, i);
    lemma_rank_monotone(s, level, i + 1, s.len() as int);
    assert(s.take(s.len() as int) =~= s);
    assert forall|j: int| i < j < s.len() implies rank(s, level, i) < rank(s, level, j) by {
        lemma_rank_monotone(s, level, i + 1, j);
    }
}

/// The last focused rank is the rank of some focused widget that takes part,
/// and there is none when it is `None`.
proof fn lemma_last_focused_rank(s: Seq<FocusState>, level: FocusLevel)
    ensures
        last_focused_rank(s, level) matches Some(r) ==> exists|i: int|
            0 <= i < s.len() && level.permits(s[i].tier) && s[i].focused && rank(s, level, i)
                == r,
        last_focused_rank(s, level) is None ==> forall|i: int|
            0 <= i < s.len() && level.permits(s[i].tier) ==> !s[i].focused,
        last_focused_rank(s, level) matches Some(r) ==> r < allowed_count(s, level),
    decreases s.len(),
{
    if s.len() > 0 {
        let n = s.len() - 1;
        let d = s.drop_last();
        lemma_last_focused_rank(d, level);
        assert(s.take(n) =~= d);
        assert forall|i: int| 0 <= i < n implies d[i] == s[i] by {}
        if level.permits(s.last().tier) && s.last().focused {
            assert(rank(s, level, n) == allowed_count(d, level));
        } else {
            if let Some(r) = last_focused_rank(d, level) {
                let i = choose|i: int|
                    0 <= i < d.len() && level.permits(d[i].tier) && d[i].focused && rank(
                        d,
                        level,
                        i,
                    ) == r;
                assert(d.take(i) =~= s.take(i));
                assert(rank(s, level, i) == r);
            }
        }
    }
}

/// Under full keyboard access every widget takes part, so a widget's rank is
/// its index.
proof fn lemma_all_controls_rank(s: Seq<FocusState>, i: int)
    requires
        0 <= i <= s.len(),
    ensures
        rank(s, FocusLevel::AllControls, i) == i,
        allowed_count(s, FocusLevel::AllControls) == s.len(),
    decreases i,
{
    lemma_all_controls_count(s);
    lemma_all_controls_count(s.take(i));
}

proof fn lemma_all_controls_count(s: Seq<FocusState>)
    ensures
        allowed_count(s, FocusLevel::AllControls) == s.len(),
    decreases s.len(),
{
    if s.len() > 0 {
        lemma_all_controls_count(s.drop_last());
    }
}

// ============================================================================
// Operations
// ============================================================================

/// Counts the focusable widgets that take part in navigation at `level`,
/// and finds the position (among them) of the last focused one.
pub fn count_filtered(level: FocusLevel, states: &Vec<FocusState>) -> (c: Count)
    ensures
        is_count_of(c, states@, level),
{
    let mut count = Count { focused: None, total: 0 };
    let mut i: usize = 0;
    while i < states.len()
        invariant
            i <= states@.len(),
            count.total <= i,
            is_count_of(count, states@.take(i as int), level),
        decreases states@.len() - i,
    {
        proof {
            lemma_take_step(states@, i as int);
        }
        let state = &states[i];
        if level.allows(state.focus_tier()) {
            if state.is_focused() {
                count.focused = Some(count.total);
            }
            count.total = count.total + 1;
        }
        i = i + 1;
    }
    proof {
        assert(states@.take(states@.len() as int) =~= states@);
    }
    count
}

/// Counts the focusable widgets and finds the position of the last focused one.
pub fn count(states: &Vec<FocusState>) -> (c: Count)
    ensures
        is_count_of(c, states@, FocusLevel::AllControls),
        c.total == states@.len(),
{
    let mut count = Count { focused: None, total: 0 };
    let mut i: usize = 0;
    while i < states.len()
        invariant
            i <= states@.len(),
            count.total == i,
            is_count_of(count, states@.take(i as int), FocusLevel::AllControls),
        decreases states@.len() - i,
    {
        proof {
            lemma_take_step(states@, i as int);
        }
        let state = &states[i];
        if state.is_focused() {
            count.focused = Some(count.total);
        }
        count.total = count.total + 1;
        i = i + 1;
    }
    proof {
        assert(states@.take(states@.len() as int) =~= states@);
    }
    count
}

/// Focuses the widgets whose identifier is `target` and unfocuses all others.
pub fn focus(target: Id, states: &mut Vec<FocusState>)
    ensures
        final(states)@ == focus_result(old(states)@, target),
{
    let ghost s0 = states@;
    let mut i: usize = 0;
    while i < states.len()
        invariant
            states@.len() == s0.len(),
            i <= s0.len(),
            forall|j: int| 0 <= j < i ==> states@[j] == focus_result(s0, target)[j],
            forall|j: int| i <= j < s0.len() ==> states@[j] == s0[j],
        decreases s0.len() - i,
    {
        let mut state = states[i];
        match state.id {
            Some(id) if id == target => {
                state.focus();
            },
            _ => {
                state.unfocus();
            },
        }
        states.set(i, state);
        i = i + 1;
    }
    proof {
        assert(states@ =~= focus_result(s0, target));
    }
}

/// Unfocuses every widget.
pub fn unfocus(states: &mut Vec<FocusState>)
    ensures
        final(states)@ == unfocus_result(old(states)@),
{
    let ghost s0 = states@;
    let mut i: usize = 0;
    while i < states.len()
        invariant
            states@.len() == s0.len(),
            i <= s0.len(),
            forall|j: int| 0 <= j < i ==> states@[j] == unfocus_result(s0)[j],
            forall|j: int| i <= j < s0.len() ==> states@[j] == s0[j],
        decreases s0.len() - i,
    {
        let mut state = states[i];
        state.unfocus();
        states.set(i, state);
        i = i + 1;
    }
    proof {
        assert(states@ =~= unfocus_result(s0));
    }
}

/// Searches for the current focused widget, and
/// - if found, focuses the next focusable widget (the last one loses focus
///   and none gains it);
/// - if not found, focuses the first focusable widget.
pub fn focus_next(states: &mut Vec<FocusState>)
    ensures
        final(states)@ == focus_next_result(old(states)@),
{
    let count = count(states);
    let ghost s0 = states@;
    proof {
        lemma_last_focused_rank(s0, FocusLevel::AllControls);
        lemma_all_controls_count(s0);
    }
    let mut current: usize = 0;
    while current < states.len()
        invariant
            states@.len() == s0.len(),
            current <= s0.len(),
            is_count_of(count, s0, FocusLevel::AllControls),
            count.focused matches Some(f) ==> f < s0.len(),
            forall|j: int| 0 <= j < current ==> states@[j] == focus_next_result(s0)[j],
            forall|j: int| current <= j < s0.len() ==> states@[j] == s0[j],
        decreases s0.len() - current,
    {
        let mut state = states[current];
        match count.focused {
            None if current == 0 => state.focus(),
            Some(focused) if focused == current => state.unfocus(),
            Some(focused) if focused + 1 == current => state.focus(),
            _ => {},
        }
        states.set(current, state);
        current = current + 1;
    }
    proof {
        assert(states@ =~= focus_next_result(s0));
    }
}

/// Searches for the current focused widget, and
/// - if found, focuses the previous focusable widget (the first one loses
///   focus and none gains it);
/// - if not found, focuses the last focusable widget.
pub fn focus_previous(states: &mut Vec<FocusState>)
    ensures
        final(states)@ == focus_previous_result(old(states)@),
{
    let count = count(states);
    let ghost s0 = states@;
    proof {
        lemma_last_focused_rank(s0, FocusLevel::AllControls);
        lemma_all_controls_count(s0);
    }
    let mut current: usize = 0;
    while current < states.len()
        invariant
            states@.len() == s0.len(),
            count.total == s0.len(),
            current <= s0.len(),
            is_count_of(count, s0, FocusLevel::AllControls),
            forall|j: int| 0 <= j < current ==> states@[j] == focus_previous_result(s0)[j],
            forall|j: int| current <= j < s0.len() ==> states@[j] == s0[j],
        decreases s0.len() - current,
    {
        let mut state = states[current];
        match count.focused {
            None if current == count.total - 1 => state.focus(),
            Some(0) if current == 0 => state.unfocus(),
            Some(0) => {},
            Some(focused) if focused == current => state.unfocus(),
            Some(focused) if focused - 1 == current => state.focus(),
            _ => {},
        }
        states.set(current, state);
        current = current + 1;
    }
    proof {
        assert(states@ =~= focus_previous_result(s0));
    }
}

/// Finds the identifier of the last focused widget that has one.
pub fn find_focused(states: &Vec<FocusState>) -> (r: Option<Id>)
    ensures
        r == last_focused_id(states@),
{
    let mut focused: Option<Id> = None;
    let mut i: usize = 0;
    while i < states.len()
        invariant
            i <= states@.len(),
            focused == last_focused_id(states@.take(i as int)),
        decreases states@.len() - i,
    {
        proof {
            lemma_take_step(states@, i as int);
        }
        let state = &states[i];
        if state.is_focused() && state.id.is_some() {
            focused = state.id;
        }
        i = i + 1;
    }
    proof {
        assert(states@.take(states@.len() as int) =~= states@);
    }
    focused
}

/// Finds whether the widget with the given identifier is focused, among the
/// focusable widgets that the query visits, in order; the last of them with
/// that identifier decides, and `None` means there is none. The query
/// enters no container once it has an answer ([`IsFocused::traverse`]), so
/// widgets in containers after the first match are not visited.
pub fn is_focused(target: Id, states: &Vec<FocusState>) -> (r: Option<bool>)
    ensures
        r == target_focus(states@, target),
{
    let mut result: Option<bool> = None;
    let mut i: usize = 0;
    while i < states.len()
        invariant
            i <= states@.len(),
            result == target_focus(states@.take(i as int), target),
        decreases states@.len() - i,
    {
        proof {
            lemma_take_step(states@, i as int);
        }
        let state = &states[i];
        match state.id {
            Some(id) if id == target => {
                result = Some(state.is_focused());
            },
            _ => {},
        }
        i = i + 1;
    }
    proof {
        assert(states@.take(states@.len() as int) =~= states@);
    }
    result
}

/// Moves focus forward among the widgets that take part at `level`, wrapping
/// from the last to the first; widgets that do not take part are untouched.
pub fn focus_next_filtered(level: FocusLevel, states: &mut Vec<FocusState>)
    ensures
        final(states)@ == focus_next_filtered_result(old(states)@, level),
{
    let count = count_filtered(level, states);
    let ghost s0 = states@;
    let mut current: usize = 0;
    let mut i: usize = 0;
    while i < states.len()
        invariant
            states@.len() == s0.len(),
            i <= s0.len(),
            current <= i,
            current as nat == rank(s0, level, i as int),
            is_count_of(count, s0, level),
            forall|j: int| 0 <= j < i ==> states@[j] == focus_next_filtered_result(s0, level)[j],
            forall|j: int| i <= j < s0.len() ==> states@[j] == s0[j],
        decreases s0.len() - i,
    {
        proof {
            lemma_take_step(s0, i as int);
        }
        let mut state = states[i];
        if level.allows(state.focus_tier()) {
            proof {
                lemma_rank_facts(s0, level, i as int);
                lemma_last_focused_rank(s0, level);
            }
            match count.focused {
                None if current == 0 => state.focus(),
                Some(focused) if focused == count.total - 1 && current == 0 => state.focus(),
                Some(focused) if focused == current => state.unfocus(),
                Some(focused) if focused + 1 == current => state.focus(),
                _ => {},
            }
            states.set(i, state);
            current = current + 1;
        }
        i = i + 1;
    }
    proof {
        assert(states@ =~= focus_next_filtered_result(s0, level));
    }
}

/// Moves focus backward among the widgets that take part at `level`,
/// wrapping from the first to the last; widgets that do not take part are
/// untouched.
pub fn focus_previous_filtered(level: FocusLevel, states: &mut Vec<FocusState>)
    ensures
        final(states)@ == focus_previous_filtered_result(old(states)@, level),
{
    let count = count_filtered(level, states);
    let ghost s0 = states@;
    let mut current: usize = 0;
    let mut i: usize = 0;
    while i < states.len()
        invariant
            states@.len() == s0.len(),
            i <= s0.len(),
            current <= i,
            current as nat == rank(s0, level, i as int),
            is_count_of(count, s0, level),
            forall|j: int|
                0 <= j < i ==> states@[j] == focus_previous_filtered_result(s0, level)[j],
            forall|j: int| i <= j < s0.len() ==> states@[j] == s0[j],
        decreases s0.len() - i,
    {
        proof {
            lemma_take_step(s0, i as int);
        }
        let mut state = states[i];
        if level.allows(state.focus_tier()) {
            proof {
                lemma_rank_facts(s0, level, i as int);
                lemma_last_focused_rank(s0, level);
            }
            match count.focused {
                None if current == count.total - 1 => state.focus(),
                Some(0) if current == 0 => state.unfocus(),
                Some(0) if current == count.total - 1 => state.focus(),
                Some(0) => {},
                Some(focused) if focused == current => state.unfocus(),
                Some(focused) if focused - 1 == current => state.focus(),
                _ => {},
            }
            states.set(i, state);
            current = current + 1;
        }
        i = i + 1;
    }
    proof {
        assert(states@ =~= focus_previous_filtered_result(s0, level));
    }
}


// ============================================================================
// Laws
// ============================================================================

/// At most one widget that takes part at `level` is focused.
pub open spec fn at_most_one_focused(s: Seq<FocusState>, level: FocusLevel) -> bool {
    forall|i: int, j: int|
        0 <= i < s.len() && 0 <= j < s.len() && level.permits(s[i].tier) && level.permits(
            s[j].tier,
        ) && s[i].focused && s[j].focused ==> i == j
}

/// The position that moving forward with wrapping gives focus to.
pub open spec fn next_position(focused: Option<nat>, total: nat) -> nat {
    match focused {
        None => 0,
        Some(f) => if f + 1 < total {
            f + 1
        } else {
            0
        },
    }
}

/// The position that moving backward with wrapping gives focus to.
pub open spec fn previous_position(focused: Option<nat>, total: nat) -> nat {
    match focused {
        None => (total - 1) as nat,
        Some(f) => if f == 0 {
            (total - 1) as nat
        } else {
            (f - 1) as nat
        },
    }
}

proof fn lemma_same_tiers(s: Seq<FocusState>, t: Seq<FocusState>, level: FocusLevel)
    requires
        s.len() == t.len(),
        forall|i: int| 0 <= i < s.len() ==> s[i].tier == t[i].tier,
    ensures
        allowed_count(s, level) == allowed_count(t, level),
        forall|i: int| 0 <= i <= s.len() ==> rank(s, level, i) == rank(t, level, i),
    decreases s.len(),
{
    if s.len() > 0 {
        lemma_same_tiers(s.drop_last(), t.drop_last(), level);
    }
    assert forall|i: int| 0 <= i <= s.len() implies rank(s, level, i) == rank(t, level, i) by {
        if i < s.len() {
            lemma_same_tiers(s.take(i), t.take(i), level);
        } else {
            assert(s.take(i) =~= s);
            assert(t.take(i) =~= t);
        }
    }
}

/// When at most one widget that takes part is focused, the focused one (if
/// any) is the one whose rank is the last focused rank.
proof fn lemma_unique_focus(s: Seq<FocusState>, level: FocusLevel)
    requires
        at_most_one_focused(s, level),
    ensures
        forall|i: int|
            0 <= i < s.len() && level.permits(s[i].tier) ==> (s[i].focused <==> last_focused_rank(
                s,
                level,
            ) == Some(rank(s, level, i))),
{
    lemma_last_focused_rank(s, level);
    assert forall|i: int| 0 <= i < s.len() && level.permits(s[i].tier) implies (s[i].focused
        <==> last_focused_rank(s, level) == Some(rank(s, level, i))) by {
        if let Some(r) = last_focused_rank(s, level) {
            let w = choose|w: int|
                0 <= w < s.len() && level.permits(s[w].tier) && s[w].focused && rank(s, level, w)
                    == r;
            lemma_rank_facts(s, level, i);
            lemma_rank_facts(s, level, w);
            if rank(s, level, i) == r {
                assert(i == w);
            }
        }
    }
}

/// Moving focus forward among the widgets that take part at `level`, when at
/// most one of them is focused, leaves exactly the next one (cyclically)
/// focused, or the first one when none was; widgets that do not take part
/// are unchanged.
pub proof fn law_focus_next_filtered_moves_focus(s: Seq<FocusState>, level: FocusLevel)
    requires
        at_most_one_focused(s, level),
        allowed_count(s, level) > 0,
    ensures
        ({
            let r = focus_next_filtered_result(s, level);
            let p = next_position(last_focused_rank(s, level), allowed_count(s, level));
            &&& r.len() == s.len()
            &&& forall|i: int|
                0 <= i < s.len() && level.permits(s[i].tier) ==> r[i] == s[i].with_focused(
                    rank(s, level, i) == p,
                )
            &&& forall|i: int| 0 <= i < s.len() && !level.permits(s[i].tier) ==> r[i] == s[i]
        }),
{
    lemma_unique_focus(s, level);
    lemma_last_focused_rank(s, level);
    assert forall|i: int| 0 <= i < s.len() && level.permits(s[i].tier) implies #[trigger] rank(
        s,
        level,
        i,
    ) < allowed_count(s, level) by {
        lemma_rank_facts(s, level, i);
    }
}

/// Moving focus backward among the widgets that take part at `level`, when at
/// most one of them is focused, leaves exactly the previous one (cyclically)
/// focused, or the last one when none was. The one exception is a single
/// such widget that is focused: it loses focus and none gains it.
pub proof fn law_focus_previous_filtered_moves_focus(s: Seq<FocusState>, level: FocusLevel)
    requires
        at_most_one_focused(s, level),
        allowed_count(s, level) > 1 || last_focused_rank(s, level) is None,
        allowed_count(s, level) > 0,
    ensures
        ({
            let r = focus_previous_filtered_result(s, level);
            let p = previous_position(last_focused_rank(s, level), allowed_count(s, level));
            &&& r.len() == s.len()
            &&& forall|i: int|
                0 <= i < s.len() && level.permits(s[i].tier) ==> r[i] == s[i].with_focused(
                    rank(s, level, i) == p,
                )
            &&& forall|i: int| 0 <= i < s.len() && !level.permits(s[i].tier) ==> r[i] == s[i]
        }),
{
    lemma_unique_focus(s, level);
    lemma_last_focused_rank(s, level);
    assert forall|i: int| 0 <= i < s.len() && level.permits(s[i].tier) implies #[trigger] rank(
        s,
        level,
        i,
    ) < allowed_count(s, level) by {
        lemma_rank_facts(s, level, i);
    }
}

/// When exactly the widget of rank `p` among those that take part is
/// focused, at most one is focused and the last focused rank is `p`.
proof fn lemma_focused_at_rank(r: Seq<FocusState>, level: FocusLevel, p: nat)
    requires
        p < allowed_count(r, level),
        forall|i: int|
            0 <= i < r.len() && level.permits(r[i].tier) ==> r[i].focused == (rank(r, level, i)
                == p),
    ensures
        at_most_one_focused(r, level),
        last_focused_rank(r, level) == Some(p),
{
    assert forall|i: int, j: int|
        0 <= i < r.len() && 0 <= j < r.len() && level.permits(r[i].tier) && level.permits(
            r[j].tier,
        ) && r[i].focused && r[j].focused implies i == j by {
        assert(rank(r, level, i) == p);
        assert(rank(r, level, j) == p);
        if i < j {
            lemma_rank_facts(r, level, i);
            assert(rank(r, level, i) < rank(r, level, j));
        } else if j < i {
            lemma_rank_facts(r, level, j);
            assert(rank(r, level, j) < rank(r, level, i));
        }
    }
    lemma_last_focused_rank(r, level);
    lemma_rank_exists(r, level, p);
    let v = choose|v: int| 0 <= v < r.len() && level.permits(r[v].tier) && rank(r, level, v) == p;
    assert(r[v].focused);
    if let Some(q) = last_focused_rank(r, level) {
        let w = choose|w: int|
            0 <= w < r.len() && level.permits(r[w].tier) && r[w].focused && rank(r, level, w) == q;
        assert(r[w].focused);
    }
}

/// Moving focus backward undoes moving it forward, when exactly one of at
/// least two widgets that take part at `level` is focused.
pub proof fn law_focus_previous_undoes_next(s: Seq<FocusState>, level: FocusLevel)
    requires
        at_most_one_focused(s, level),
        last_focused_rank(s, level) is Some,
        allowed_count(s, level) > 1,
    ensures
        focus_previous_filtered_result(focus_next_filtered_result(s, level), level) == s,
{
    let t = allowed_count(s, level);
    let f = last_focused_rank(s, level)->0;
    let r1 = focus_next_filtered_result(s, level);
    let p = next_position(last_focused_rank(s, level), t);
    lemma_last_focused_rank(s, level);
    law_focus_next_filtered_moves_focus(s, level);
    lemma_same_tiers(s, r1, level);
    lemma_focused_at_rank(r1, level, p);
    law_focus_previous_filtered_moves_focus(r1, level);
    assert(previous_position(Some(p), t) == f);
    lemma_unique_focus(s, level);
    let r2 = focus_previous_filtered_result(r1, level);
    assert(r2 =~= s);
}

/// Every rank below the total belongs to some widget that takes part.
proof fn lemma_rank_exists(s: Seq<FocusState>, level: FocusLevel, k: nat)
    requires
        k < allowed_count(s, level),
    ensures
        exists|v: int| 0 <= v < s.len() && level.permits(s[v].tier) && rank(s, level, v) == k,
    decreases s.len(),
{
    let d = s.drop_last();
    let n = s.len() - 1;
    assert(s.take(n) =~= d);
    if level.permits(s.last().tier) && k == allowed_count(d, level) {
        assert(rank(s, level, n) == k);
    } else {
        lemma_rank_exists(d, level, k);
        let v = choose|v: int| 0 <= v < d.len() && level.permits(d[v].tier) && rank(d, level, v) == k;
        assert(d.take(v) =~= s.take(v));
        assert(rank(s, level, v) == k);
    }
}

/// Under full keyboard access every widget takes part in navigation.
pub proof fn law_all_controls_counts_every_widget(s: Seq<FocusState>)
    ensures
        allowed_count(s, FocusLevel::AllControls) == s.len(),
        forall|i: int| 0 <= i <= s.len() ==> rank(s, FocusLevel::AllControls, i) == i,
{
    lemma_all_controls_count(s);
    assert forall|i: int| 0 <= i <= s.len() implies rank(s, FocusLevel::AllControls, i) == i by {
        lemma_all_controls_rank(s, i);
    }
}

/// After focusing `target`, querying `target` reports it focused, and the
/// focused widget found is `target`, provided some widget has that identifier.
pub proof fn law_focus_then_query(s: Seq<FocusState>, target: Id)
    requires
        exists|i: int| 0 <= i < s.len() && s[i].id == Some(target),
    ensures
        target_focus(focus_result(s, target), target) == Some(true),
        last_focused_id(focus_result(s, target)) == Some(target),
    decreases s.len(),
{
    let r = focus_result(s, target);
    let d = s.drop_last();
    assert(r.drop_last() =~= focus_result(d, target));
    if s.last().id != Some(target) {
        let i = choose|i: int| 0 <= i < s.len() && s[i].id == Some(target);
        assert(d[i].id == Some(target));
        law_focus_then_query(d, target);
    }
}

/// After unfocusing, no widget is focused.
pub proof fn law_unfocus_clears(s: Seq<FocusState>, level: FocusLevel)
    ensures
        last_focused_id(unfocus_result(s)) is None,
        last_focused_rank(unfocus_result(s), level) is None,
    decreases s.len(),
{
    if s.len() > 0 {
        assert(unfocus_result(s).drop_last() =~= unfocus_result(s.drop_last()));
        law_unfocus_clears(s.drop_last(), level);
    }
}


/// The position that moving focus forward without wrapping gives focus to:
/// the one after the focused one, the first when none is focused, and none
/// after the last.
pub open spec fn next_unwrapped(focused: Option<nat>, total: nat) -> Option<nat> {
    match focused {
        None => Some(0),
        Some(f) => if f + 1 < total {
            Some(f + 1)
        } else {
            None
        },
    }
}

/// The position that moving focus backward without wrapping gives focus
/// to: the one before the focused one, the last when none is focused, and
/// none before the first.
pub open spec fn previous_unwrapped(focused: Option<nat>, total: nat) -> Option<nat> {
    match focused {
        None => Some((total - 1) as nat),
        Some(f) => if f == 0 {
            None
        } else {
            Some((f - 1) as nat)
        },
    }
}

/// Moving focus forward, when at most one widget is focused, leaves exactly
/// the widget after the focused one focused, or the first one when none
/// was; after the last widget, none is focused.
pub proof fn law_focus_next_moves_focus(s: Seq<FocusState>)
    requires
        at_most_one_focused(s, FocusLevel::AllControls),
        s.len() > 0,
    ensures
        ({
            let r = focus_next_result(s);
            let p = next_unwrapped(last_focused_rank(s, FocusLevel::AllControls), s.len());
            &&& r.len() == s.len()
            &&& forall|i: int| 0 <= i < s.len() ==> r[i] == s[i].with_focused(p == Some(i as nat))
        }),
{
    lemma_unique_focus(s, FocusLevel::AllControls);
    lemma_last_focused_rank(s, FocusLevel::AllControls);
    law_all_controls_counts_every_widget(s);
}

/// Moving focus backward, when at most one widget is focused, leaves exactly
/// the widget before the focused one focused, or the last one when none
/// was; before the first widget, none is focused.
pub proof fn law_focus_previous_moves_focus(s: Seq<FocusState>)
    requires
        at_most_one_focused(s, FocusLevel::AllControls),
        s.len() > 0,
    ensures
        ({
            let r = focus_previous_result(s);
            let p = previous_unwrapped(last_focused_rank(s, FocusLevel::AllControls), s.len());
            &&& r.len() == s.len()
            &&& forall|i: int| 0 <= i < s.len() ==> r[i] == s[i].with_focused(p == Some(i as nat))
        }),
{
    lemma_unique_focus(s, FocusLevel::AllControls);
    lemma_last_focused_rank(s, FocusLevel::AllControls);
    law_all_controls_counts_every_widget(s);
}

/// The widgets of `s` that take part in navigation at `level`, in order.
pub open spec fn allowed_widgets(s: Seq<FocusState>, level: FocusLevel) -> Seq<FocusState> {
    s.filter(|w: FocusState| level.permits(w.tier))
}

/// Counting and ranking go by the widgets that take part: their number is
/// the count, and the last focused rank is the position, among them, of the
/// last focused one.
proof fn lemma_allowed_widgets(s: Seq<FocusState>, level: FocusLevel)
    ensures
        allowed_widgets(s, level).len() == allowed_count(s, level),
        last_focused_rank(s, level) matches Some(j) ==> {
            &&& j < allowed_widgets(s, level).len()
            &&& allowed_widgets(s, level)[j as int].focused
            &&& forall|k: int|
                j < k < allowed_widgets(s, level).len() ==> !(#[trigger] allowed_widgets(
                    s,
                    level,
                )[k]).focused
        },
        last_focused_rank(s, level) is None ==> forall|k: int|
            0 <= k < allowed_widgets(s, level).len() ==> !(#[trigger] allowed_widgets(s, level)[k]).focused,
    decreases s.len(),
{
    reveal(Seq::filter);
    if s.len() > 0 {
        let d = s.drop_last();
        lemma_allowed_widgets(d, level);
        let a = allowed_widgets(s, level);
        let b = allowed_widgets(d, level);
        assert(allowed_widgets(s, level) == if level.permits(s.last().tier) {
            b.push(s.last())
        } else {
            b
        });
    }
}

/// A count of the widgets that take part at `level` gives their number and,
/// among them, the position of the last focused one, if any.
pub proof fn law_count_filtered_summarises(c: Count, s: Seq<FocusState>, level: FocusLevel)
    requires
        is_count_of(c, s, level),
    ensures
        c.total == allowed_widgets(s, level).len(),
        c.focused matches Some(j) ==> {
            &&& j < allowed_widgets(s, level).len()
            &&& allowed_widgets(s, level)[j as int].focused
            &&& forall|k: int|
                j < k < allowed_widgets(s, level).len() ==> !(#[trigger] allowed_widgets(
                    s,
                    level,
                )[k]).focused
        },
        c.focused is None ==> forall|k: int|
            0 <= k < allowed_widgets(s, level).len() ==> !(#[trigger] allowed_widgets(s, level)[k]).focused,
{
    lemma_allowed_widgets(s, level);
}

/// A count of all widgets gives their number and the index of the last
/// focused one, if any.
pub proof fn law_count_summarises(c: Count, s: Seq<FocusState>)
    requires
        is_count_of(c, s, FocusLevel::AllControls),
    ensures
        c.total == s.len(),
        c.focused matches Some(j) ==> j < s.len() && s[j as int].focused && forall|k: int|
            j < k < s.len() ==> !(#[trigger] s[k]).focused,
        c.focused is None ==> forall|k: int| 0 <= k < s.len() ==> !(#[trigger] s[k]).focused,
{
    law_all_controls_counts_every_widget(s);
    lemma_last_focused_rank(s, FocusLevel::AllControls);
    if let Some(j) = c.focused {
        let i = choose|i: int|
            0 <= i < s.len() && s[i].focused && rank(s, FocusLevel::AllControls, i) == j;
        assert(i == j);
        assert forall|k: int| j < k < s.len() implies !(#[trigger] s[k]).focused by {
            if s[k].focused {
                lemma_last_focused_after(s, FocusLevel::AllControls, k);
            }
        }
    }
}

/// No widget that takes part after the last focused one is focused.
proof fn lemma_last_focused_after(s: Seq<FocusState>, level: FocusLevel, k: int)
    requires
        0 <= k < s.len(),
        level.permits(s[k].tier),
        s[k].focused,
    ensures
        last_focused_rank(s, level) matches Some(j) && j >= rank(s, level, k),
    decreases s.len(),
{
    let n = s.len() - 1;
    let d = s.drop_last();
    assert(s.take(n) =~= d);
    if k == n {
    } else {
        assert(d.take(k) =~= s.take(k));
        lemma_last_focused_after(d, level, k);
        if level.permits(s.last().tier) && s.last().focused {
            lemma_rank_monotone(s, level, k, n);
        }
    }
}

/// The focused widget found is the last focused widget that has an
/// identifier; widgets without one are passed over, and none is found when
/// no widget with an identifier is focused.
pub proof fn law_find_focused_is_last(s: Seq<FocusState>)
    ensures
        last_focused_id(s) matches Some(x) ==> exists|k: int|
            0 <= k < s.len() && s[k].focused && s[k].id == Some(x) && forall|m: int|
                k < m < s.len() ==> !(#[trigger] s[m].focused && s[m].id is Some),
        last_focused_id(s) is None ==> forall|k: int|
            0 <= k < s.len() ==> !(#[trigger] s[k].focused && s[k].id is Some),
    decreases s.len(),
{
    if s.len() > 0 {
        let d = s.drop_last();
        let n = s.len() - 1;
        law_find_focused_is_last(d);
        if s.last().focused && s.last().id is Some {
            assert(s[n].focused && s[n].id == last_focused_id(s));
        } else {
            if let Some(x) = last_focused_id(d) {
                let k = choose|k: int|
                    0 <= k < d.len() && d[k].focused && d[k].id == Some(x) && forall|m: int|
                        k < m < d.len() ==> !(#[trigger] d[m].focused && d[m].id is Some);
                assert(s[k] == d[k]);
                assert forall|m: int| k < m < s.len() implies !(#[trigger] s[m].focused
                    && s[m].id is Some) by {
                    if m < n {
                        assert(s[m] == d[m]);
                    }
                }
            } else {
                assert forall|k: int| 0 <= k < s.len() implies !(#[trigger] s[k].focused
                    && s[k].id is Some) by {
                    if k < n {
                        assert(s[k] == d[k]);
                    }
                }
            }
        }
    }
}

/// The last widget with the identifier decides whether it is focused, and
/// there is no answer when no widget has it.
proof fn lemma_target_focus_is_last(s: Seq<FocusState>, target: Id)
    ensures
        target_focus(s, target) matches Some(b) ==> exists|k: int|
            0 <= k < s.len() && s[k].id == Some(target) && s[k].focused == b && forall|m: int|
                k < m < s.len() ==> (#[trigger] s[m].id) != Some(target),
        target_focus(s, target) is None ==> forall|k: int|
            0 <= k < s.len() ==> (#[trigger] s[k].id) != Some(target),
    decreases s.len(),
{
    if s.len() > 0 {
        let d = s.drop_last();
        let n = s.len() - 1;
        lemma_target_focus_is_last(d, target);
        if s.last().id == Some(target) {
            assert(s[n].id == Some(target));
        } else {
            if let Some(b) = target_focus(d, target) {
                let k = choose|k: int|
                    0 <= k < d.len() && d[k].id == Some(target) && d[k].focused == b && forall|
                        m: int,
                    |
                        k < m < d.len() ==> (#[trigger] d[m].id) != Some(target);
                assert(s[k] == d[k]);
                assert forall|m: int| k < m < s.len() implies (#[trigger] s[m].id) != Some(
                    target,
                ) by {
                    if m < n {
                        assert(s[m] == d[m]);
                    }
                }
            } else {
                assert forall|k: int| 0 <= k < s.len() implies (#[trigger] s[k].id) != Some(
                    target,
                ) by {
                    if k < n {
                        assert(s[k] == d[k]);
                    }
                }
            }
        }
    }
}

/// When at most one widget has the identifier, the query answers whether
/// that widget is focused, and gives no answer when none has it.
pub proof fn law_is_focused_for_unique_id(s: Seq<FocusState>, target: Id, k: int)
    requires
        forall|i: int, j: int|
            0 <= i < s.len() && 0 <= j < s.len() && s[i].id == Some(target) && s[j].id == Some(
                target,
            ) ==> i == j,
    ensures
        0 <= k < s.len() && s[k].id == Some(target) ==> target_focus(s, target) == Some(
            s[k].focused,
        ),
        (forall|i: int| 0 <= i < s.len() ==> s[i].id != Some(target)) ==> target_focus(s, target)
            is None,
{
    lemma_target_focus_is_last(s, target);
}

/// The query for whether the widget with an identifier is focused, as it
/// goes through the widget tree: each focusable widget with the identifier
/// sets the answer, and once there is an answer the query enters no further
/// container.
#[derive(Debug)]
pub struct IsFocused {
    target: Id,
    is_focused: Option<bool>,
}

impl IsFocused {
    /// The identifier looked for.
    pub closed spec fn target(&self) -> Id {
        self.target
    }

    /// The answer so far.
    pub closed spec fn answer(&self) -> Option<bool> {
        self.is_focused
    }

    /// A query for the widget with the identifier, with no answer yet.
    pub fn new(target: Id) -> (r: Self)
        ensures
            r.target() == target,
            r.answer() is None,
    {
        IsFocused { target, is_focused: None }
    }

    /// Sees a focusable widget: when it has the identifier, its focus is
    /// the answer.
    pub fn focusable(&mut self, id: Option<Id>, focused: bool)
        ensures
            final(self).target() == old(self).target(),
            final(self).answer() == if id == Some(old(self).target()) {
                Some(focused)
            } else {
                old(self).answer()
            },
    {
        match id {
            Some(i) => {
                if i.0 == self.target.0 {
                    self.is_focused = Some(focused);
                }
            },
            None => {},
        }
    }

    /// Whether the query enters the next container: only while there is no
    /// answer.
    pub fn traverse(&self) -> (r: bool)
        ensures
            r == (self.answer() is None),
    {
        self.is_focused.is_none()
    }

    /// The answer: whether the widget with the identifier is focused, if
    /// the query met one.
    pub fn finish(&self) -> (r: Option<bool>)
        ensures
            r == self.answer(),
    {
        self.is_focused
    }
}

} // verus!
