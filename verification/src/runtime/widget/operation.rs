//! Change internal widget state: the operations a task asks the runtime to
//! run over the widget tree.
//!
//! Rectangles are screen geometry, which this library only carries: they
//! are the type parameter `R`.
use vstd::prelude::*;

use crate::widget::operation::focusable::{
    self,
    focus_next_filtered_result,
    focus_next_result,
    focus_previous_filtered_result,
    focus_previous_result,
    focus_result,
    target_focus,
    unfocus_result,
    FocusLevel,
    FocusState,
};
use crate::widget::Id;

verus! {

/// An operation over the widget tree.
#[derive(Debug)]
pub enum Operation<R> {
    /// Snap the scrollable with the given ID to its bottom-right end.
    SnapToEnd(Id),
    /// Scroll the scrollable with the given ID the least needed to show the
    /// rectangle, given in content coordinates.
    EnsureVisible {
        /// The scrollable.
        target: Id,
        /// The rectangle to show.
        rect: R,
    },
    /// As [`Operation::EnsureVisible`], with smooth animation.
    EnsureVisibleAnimated {
        /// The scrollable.
        target: Id,
        /// The rectangle to show.
        rect: R,
    },
    /// Focus the previous focusable widget.
    FocusPrevious,
    /// Focus the next focusable widget.
    FocusNext,
    /// Focus the previous focusable widget that the level allows.
    FocusPreviousFiltered(FocusLevel),
    /// Focus the next focusable widget that the level allows.
    FocusNextFiltered(FocusLevel),
    /// Unfocus the focused widget.
    Unfocus,
    /// Ask whether the widget with the given ID is focused.
    IsFocused(Id),
    /// Focus the widget with the given ID.
    Focus(Id),
    /// Move the cursor of the text input with the given ID to the end.
    MoveCursorToEnd(Id),
    /// Move the cursor of the text input with the given ID to the front.
    MoveCursorToFront(Id),
    /// Move the cursor of the text input with the given ID to a position.
    MoveCursorTo(Id, usize),
    /// Select all the content of the text input with the given ID.
    SelectAll(Id),
    /// Select a content range of the text input with the given ID.
    SelectRange(Id, usize, usize),
}

/// Snaps the scrollable with the given [`Id`] to its end.
pub fn snap_to_end<R>(id: Id) -> (r: Operation<R>)
    ensures
        r == Operation::<R>::SnapToEnd(id),
{
    Operation::SnapToEnd(id)
}

/// Scrolls the scrollable with the given [`Id`] the minimum amount to make
/// the given rectangle visible; if it already is, nothing scrolls.
pub fn ensure_visible<R>(id: Id, target_rect: R) -> (r: Operation<R>)
    ensures
        r == (Operation::EnsureVisible { target: id, rect: target_rect }),
{
    Operation::EnsureVisible { target: id, rect: target_rect }
}

/// Scrolls the scrollable with the given [`Id`] the minimum amount to make
/// the given rectangle visible, with smooth animation.
pub fn ensure_visible_animated<R>(id: Id, target_rect: R) -> (r: Operation<R>)
    ensures
        r == (Operation::EnsureVisibleAnimated { target: id, rect: target_rect }),
{
    Operation::EnsureVisibleAnimated { target: id, rect: target_rect }
}

/// Focuses the previous focusable widget.
pub fn focus_previous<R>() -> (r: Operation<R>)
    ensures
        r == Operation::<R>::FocusPrevious,
{
    Operation::FocusPrevious
}

/// Focuses the next focusable widget.
pub fn focus_next<R>() -> (r: Operation<R>)
    ensures
        r == Operation::<R>::FocusNext,
{
    Operation::FocusNext
}

/// Focuses the previous focusable widget that matches the given level.
pub fn focus_previous_filtered<R>(level: FocusLevel) -> (r: Operation<R>)
    ensures
        r == Operation::<R>::FocusPreviousFiltered(level),
{
    Operation::FocusPreviousFiltered(level)
}

/// Focuses the next focusable widget that matches the given level.
pub fn focus_next_filtered<R>(level: FocusLevel) -> (r: Operation<R>)
    ensures
        r == Operation::<R>::FocusNextFiltered(level),
{
    Operation::FocusNextFiltered(level)
}

/// Unfocuses the currently focused widget.
pub fn unfocus<R>() -> (r: Operation<R>)
    ensures
        r == Operation::<R>::Unfocus,
{
    Operation::Unfocus
}

/// Asks whether the widget with the given [`Id`] is focused.
pub fn is_focused<R>(id: Id) -> (r: Operation<R>)
    ensures
        r == Operation::<R>::IsFocused(id),
{
    Operation::IsFocused(id)
}

/// Focuses the widget with the given [`Id`].
pub fn focus<R>(id: Id) -> (r: Operation<R>)
    ensures
        r == Operation::<R>::Focus(id),
{
    Operation::Focus(id)
}

/// Moves the cursor of the widget with the given [`Id`] to the end.
pub fn move_cursor_to_end<R>(id: Id) -> (r: Operation<R>)
    ensures
        r == Operation::<R>::MoveCursorToEnd(id),
{
    Operation::MoveCursorToEnd(id)
}

/// Moves the cursor of the widget with the given [`Id`] to the front.
pub fn move_cursor_to_front<R>(id: Id) -> (r: Operation<R>)
    ensures
        r == Operation::<R>::MoveCursorToFront(id),
{
    Operation::MoveCursorToFront(id)
}

/// Moves the cursor of the widget with the given [`Id`] to the provided
/// position.
pub fn move_cursor_to<R>(id: Id, position: usize) -> (r: Operation<R>)
    ensures
        r == Operation::<R>::MoveCursorTo(id, position),
{
    Operation::MoveCursorTo(id, position)
}

/// Selects all the content of the widget with the given [`Id`].
pub fn select_all<R>(id: Id) -> (r: Operation<R>)
    ensures
        r == Operation::<R>::SelectAll(id),
{
    Operation::SelectAll(id)
}

/// Selects the given content range of the widget with the given [`Id`].
pub fn select_range<R>(id: Id, start: usize, end: usize) -> (r: Operation<R>)
    ensures
        r == Operation::<R>::SelectRange(id, start, end),
{
    Operation::SelectRange(id, start, end)
}

/// Runs an operation over the focusable widgets of a tree, in traversal
/// order: the focus operations change focus as the focus module says, a
/// focus query answers without changing anything, and the scrolling and
/// text operations leave focus alone.
pub fn perform_on_focusables<R>(operation: &Operation<R>, states: &mut Vec<FocusState>) -> (r: Option<
    bool,
>)
    ensures
        match *operation {
            Operation::FocusPrevious => final(states)@ == focus_previous_result(old(states)@)
                && r is None,
            Operation::FocusNext => final(states)@ == focus_next_result(old(states)@) && r is None,
            Operation::FocusPreviousFiltered(level) => final(states)@
                == focus_previous_filtered_result(old(states)@, level) && r is None,
            Operation::FocusNextFiltered(level) => final(states)@ == focus_next_filtered_result(
                old(states)@,
                level,
            ) && r is None,
            Operation::Unfocus => final(states)@ == unfocus_result(old(states)@) && r is None,
            Operation::Focus(id) => final(states)@ == focus_result(old(states)@, id) && r is None,
            Operation::IsFocused(id) => final(states)@ == old(states)@ && r == target_focus(
                old(states)@,
                id,
            ),
            _ => final(states)@ == old(states)@ && r is None,
        },
{
    match operation {
        Operation::FocusPrevious => {
            focusable::focus_previous(states);
            None
        },
        Operation::FocusNext => {
            focusable::focus_next(states);
            None
        },
        Operation::FocusPreviousFiltered(level) => {
            focusable::focus_previous_filtered(*level, states);
            None
        },
        Operation::FocusNextFiltered(level) => {
            focusable::focus_next_filtered(*level, states);
            None
        },
        Operation::Unfocus => {
            focusable::unfocus(states);
            None
        },
        Operation::Focus(id) => {
            focusable::focus(*id, states);
            None
        },
        Operation::IsFocused(id) => focusable::is_focused(*id, states),
        _ => None,
    }
}

} // verus!
