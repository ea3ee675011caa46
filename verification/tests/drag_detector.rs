use icy_ui::accessibility::{masked_value, MASK_CHAR};
use icy_ui::winit::drag_detector::{DragDetector, DragSignal, PointerInput};

#[test]
fn drag_begins_past_threshold_and_ends_on_release() {
    let mut d: DragDetector<(i32, i32)> = DragDetector::new();
    assert!(!d.is_dragging());
    assert_eq!(d.process(PointerInput::Pressed { drag_button: true, at: (10, 20) }, 1), DragSignal::Nothing);
    assert_eq!(d.pending_start(), Some(&(10, 20)));
    let still = PointerInput::Moved { past_threshold: false };
    assert!(!d.begins_drag(&still));
    assert_eq!(d.process(still, 2), DragSignal::Nothing);
    let far = PointerInput::Moved { past_threshold: true };
    assert!(d.begins_drag(&far));
    assert_eq!(d.process(far, 7), DragSignal::Begin(7));
    assert!(d.is_dragging());
    assert_eq!(d.drag_id(), Some(7));
    assert_eq!(d.pending_start(), None);
    assert_eq!(d.process(PointerInput::Moved { past_threshold: false }, 8), DragSignal::Update);
    assert_eq!(d.drag_id(), Some(7));
    assert_eq!(d.process(PointerInput::Released { drag_button: false }, 9), DragSignal::Nothing);
    assert!(d.is_dragging());
    assert_eq!(d.process(PointerInput::Released { drag_button: true }, 9), DragSignal::End);
    assert!(!d.is_dragging());
    assert_eq!(d.drag_id(), None);
}

#[test]
fn click_without_move_is_not_a_drag() {
    let mut d: DragDetector<u8> = DragDetector::default();
    assert_eq!(d.process(PointerInput::Pressed { drag_button: true, at: 1 }, 1), DragSignal::Nothing);
    assert_eq!(d.process(PointerInput::Released { drag_button: true }, 2), DragSignal::Nothing);
    assert!(!d.is_dragging());
    assert_eq!(d.pending_start(), None);
    assert_eq!(d.process(PointerInput::Moved { past_threshold: true }, 3), DragSignal::Nothing);
    assert!(!d.is_dragging());
}

#[test]
fn other_button_and_press_during_drag_change_nothing() {
    let mut d: DragDetector<u8> = DragDetector::new();
    assert_eq!(d.process(PointerInput::Pressed { drag_button: false, at: 1 }, 1), DragSignal::Nothing);
    assert_eq!(d.pending_start(), None);
    d.process(PointerInput::Pressed { drag_button: true, at: 2 }, 1);
    d.process(PointerInput::Pressed { drag_button: true, at: 3 }, 1);
    assert_eq!(d.pending_start(), Some(&3));
    d.process(PointerInput::Moved { past_threshold: true }, 5);
    assert_eq!(d.process(PointerInput::Pressed { drag_button: true, at: 4 }, 6), DragSignal::Nothing);
    assert_eq!(d.drag_id(), Some(5));
    assert_eq!(d.process(PointerInput::Other, 6), DragSignal::Nothing);
    assert_eq!(d.drag_id(), Some(5));
}

#[test]
fn cancel_complete_and_reset() {
    let mut d: DragDetector<u8> = DragDetector::new();
    assert!(!d.cancel());
    d.process(PointerInput::Pressed { drag_button: true, at: 0 }, 1);
    d.process(PointerInput::Moved { past_threshold: true }, 1);
    assert!(d.cancel());
    assert!(!d.is_dragging());
    d.process(PointerInput::Pressed { drag_button: true, at: 0 }, 2);
    d.process(PointerInput::Moved { past_threshold: true }, 2);
    assert!(d.complete());
    assert!(!d.complete());
    d.process(PointerInput::Pressed { drag_button: true, at: 0 }, 3);
    d.reset();
    assert_eq!(d.pending_start(), None);
}

#[test]
fn secure_values_are_masked() {
    assert_eq!(masked_value(0), "");
    assert_eq!(masked_value(3), "\u{2022}\u{2022}\u{2022}");
    assert_eq!(masked_value(5).chars().count(), 5);
    assert!(masked_value(4).chars().all(|c| c == MASK_CHAR));
}
