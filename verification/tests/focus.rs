use icy_ui::runtime::widget::operation::{self as ops, perform_on_focusables, Operation};
use icy_ui::widget::operation::focusable::{
    count, count_filtered, find_focused, focus, focus_next, focus_next_filtered, focus_previous,
    focus_previous_filtered, is_focused, unfocus, FocusLevel, FocusState, FocusTier, IsFocused,
};
use icy_ui::widget::Id;

fn widgets(focused: Option<usize>) -> Vec<FocusState> {
    vec![
        FocusState::new(Some(Id(10)), focused == Some(0), FocusTier::Text),
        FocusState::new(Some(Id(11)), focused == Some(1), FocusTier::Control),
        FocusState::new(None, focused == Some(2), FocusTier::Text),
    ]
}

fn focused_index(states: &[FocusState]) -> Option<usize> {
    states.iter().position(|s| s.focused)
}

#[test]
fn counting() {
    let c = count(&widgets(Some(1)));
    assert_eq!(c.total, 3);
    assert_eq!(c.focused, Some(1));
    let t = count_filtered(FocusLevel::TextOnly, &widgets(Some(2)));
    assert_eq!(t.total, 2);
    assert_eq!(t.focused, Some(1));
    assert_eq!(count_filtered(FocusLevel::Manual, &widgets(None)).total, 0);
}

#[test]
fn focus_next_moves_forward_without_wrapping() {
    let mut w = widgets(None);
    focus_next(&mut w);
    assert_eq!(focused_index(&w), Some(0));
    focus_next(&mut w);
    assert_eq!(focused_index(&w), Some(1));
    focus_next(&mut w);
    assert_eq!(focused_index(&w), Some(2));
    focus_next(&mut w);
    assert_eq!(focused_index(&w), None);
}

#[test]
fn focus_previous_moves_backward() {
    let mut w = widgets(None);
    focus_previous(&mut w);
    assert_eq!(focused_index(&w), Some(2));
    focus_previous(&mut w);
    assert_eq!(focused_index(&w), Some(1));
    focus_previous(&mut w);
    assert_eq!(focused_index(&w), Some(0));
    focus_previous(&mut w);
    assert_eq!(focused_index(&w), None);
}

#[test]
fn filtered_navigation_wraps_and_skips() {
    let mut w = widgets(Some(2));
    focus_next_filtered(FocusLevel::TextOnly, &mut w);
    assert_eq!(focused_index(&w), Some(0));
    focus_next_filtered(FocusLevel::TextOnly, &mut w);
    assert_eq!(focused_index(&w), Some(2));
    focus_previous_filtered(FocusLevel::TextOnly, &mut w);
    assert_eq!(focused_index(&w), Some(0));
    focus_previous_filtered(FocusLevel::TextOnly, &mut w);
    assert_eq!(focused_index(&w), Some(2));
    let mut m = widgets(Some(1));
    focus_next_filtered(FocusLevel::Manual, &mut m);
    assert_eq!(focused_index(&m), Some(1));
}

#[test]
fn focusing_by_id_and_querying() {
    let mut w = widgets(Some(2));
    focus(Id(11), &mut w);
    assert_eq!(focused_index(&w), Some(1));
    assert_eq!(is_focused(Id(11), &w), Some(true));
    assert_eq!(is_focused(Id(10), &w), Some(false));
    assert_eq!(is_focused(Id(99), &w), None);
    assert_eq!(find_focused(&w), Some(Id(11)));
    unfocus(&mut w);
    assert_eq!(focused_index(&w), None);
    assert_eq!(find_focused(&w), None);
    assert!(FocusLevel::TextOnly.allows(FocusTier::Text));
    assert!(!FocusLevel::TextOnly.allows(FocusTier::Control));
    assert!(!FocusLevel::Manual.allows(FocusTier::Text));
}

#[test]
fn runtime_operations_drive_focus() {
    let mut w = widgets(None);
    let next: Operation<()> = ops::focus_next();
    assert_eq!(perform_on_focusables(&next, &mut w), None);
    assert_eq!(focused_index(&w), Some(0));
    let query: Operation<()> = ops::is_focused(Id(10));
    assert_eq!(perform_on_focusables(&query, &mut w), Some(true));
    let prev: Operation<()> = ops::focus_previous_filtered(FocusLevel::TextOnly);
    perform_on_focusables(&prev, &mut w);
    assert_eq!(focused_index(&w), Some(2));
    let by_id: Operation<()> = ops::focus(Id(11));
    perform_on_focusables(&by_id, &mut w);
    assert_eq!(focused_index(&w), Some(1));
    let scroll: Operation<(u8, u8)> = ops::ensure_visible(Id(1), (2, 3));
    let mut v = widgets(Some(1));
    perform_on_focusables(&scroll, &mut v);
    assert_eq!(focused_index(&v), Some(1));
    let u: Operation<()> = ops::unfocus();
    perform_on_focusables(&u, &mut v);
    assert_eq!(focused_index(&v), None);
    assert!(matches!(ops::select_range::<()>(Id(1), 2, 5), Operation::SelectRange(Id(1), 2, 5)));
    assert!(matches!(ops::move_cursor_to::<()>(Id(1), 4), Operation::MoveCursorTo(Id(1), 4)));
    assert!(matches!(ops::snap_to_end::<()>(Id(2)), Operation::SnapToEnd(Id(2))));
    assert!(matches!(ops::select_all::<()>(Id(3)), Operation::SelectAll(Id(3))));
    assert!(matches!(ops::move_cursor_to_end::<()>(Id(3)), Operation::MoveCursorToEnd(Id(3))));
    assert!(matches!(ops::move_cursor_to_front::<()>(Id(3)), Operation::MoveCursorToFront(Id(3))));
    assert!(matches!(ops::ensure_visible_animated::<u8>(Id(3), 7), Operation::EnsureVisibleAnimated { target: Id(3), rect: 7 }));
    assert!(matches!(ops::focus_previous::<()>(), Operation::FocusPrevious));
    assert!(matches!(ops::focus_next_filtered::<()>(FocusLevel::AllControls), Operation::FocusNextFiltered(FocusLevel::AllControls)));
}

#[test]
fn is_focused_query_stops_descending_once_answered() {
    let mut q = IsFocused::new(Id(3));
    assert!(q.traverse());
    q.focusable(Some(Id(1)), true);
    q.focusable(None, true);
    assert!(q.traverse());
    assert_eq!(q.finish(), None);
    q.focusable(Some(Id(3)), false);
    assert!(!q.traverse());
    assert_eq!(q.finish(), Some(false));
    q.focusable(Some(Id(3)), true);
    assert_eq!(q.finish(), Some(true));
}

#[test]
fn focus_moves_without_wrapping() {
    let mut w = widgets(Some(2));
    let n = w.len();
    focus_next(&mut w);
    assert!(w.iter().all(|s| !s.focused));
    let mut w = widgets(Some(0));
    focus_previous(&mut w);
    assert!(w.iter().all(|s| !s.focused));
    let mut w = widgets(None);
    focus_previous(&mut w);
    assert!(w[n - 1].focused && w.iter().filter(|s| s.focused).count() == 1);
}
