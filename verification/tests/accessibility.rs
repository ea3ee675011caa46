use icy_ui::accessibility::word_starts;
use icy_ui::accessibility::{
    derived_node_id, node_id, node_id_from_widget_id, same_node, AccessibilityState,
    AnnouncementPriority, Focus, Mode, NodeId,
};
use icy_ui::runtime::accessibility::{announce, focus as focus_request, Action, Priority};
use icy_ui::widget::Id;

#[test]
fn node_ids() {
    assert_eq!(node_id(42), NodeId(42));
    assert!(same_node(Some(NodeId(1)), Some(NodeId(1))));
    assert!(!same_node(Some(NodeId(1)), None));
    assert!(same_node(None, None));
    let a = node_id_from_widget_id(&Id(7));
    assert_eq!(a, node_id_from_widget_id(&Id(7)));
    assert_ne!(a, node_id_from_widget_id(&Id(8)));
    assert!(a.0 > 1);
    let c = derived_node_id(NodeId(100), 0);
    assert_eq!(c, derived_node_id(NodeId(100), 0));
    assert_ne!(c, derived_node_id(NodeId(100), 1));
    assert!(c.0 > 1);
    // The hash is the standard hasher's, not the value itself.
    assert_ne!(node_id_from_widget_id(&Id(7)).0, 7);
}

#[test]
fn state_focus_and_mode() {
    let mut state = AccessibilityState::new();
    assert!(!state.is_active());
    assert!(!state.enabled());
    state.mark_dirty();
    assert!(!state.dirty);
    state.activate();
    assert!(state.is_active());
    assert!(state.dirty);
    state.clear_dirty();
    state.set_widget_focus(Some(NodeId(3)));
    assert_eq!(state.effective_focus(), Some(NodeId(3)));
    assert!(state.a11y_focus.programmatic);
    assert!(state.dirty);
    state.set_a11y_focus(NodeId(4));
    assert_eq!(state.effective_focus(), Some(NodeId(4)));
    assert_eq!(state.focus(), Some(NodeId(4)));
    assert!(!state.a11y_focus.programmatic);
    state.deactivate();
    assert_eq!(state.mode, Mode::Inactive);
    assert_eq!(state.effective_focus(), Some(NodeId(3)));
}

#[test]
fn announcements() {
    let mut state = AccessibilityState::new();
    state.announce("Saved".to_string(), AnnouncementPriority::Polite);
    assert_eq!(state.take_announcement(), Some(("Saved".to_string(), AnnouncementPriority::Polite)));
    assert_eq!(state.take_announcement(), None);
    assert_eq!(state.next_announcement_serial(), 1);
    assert_eq!(state.next_announcement_serial(), 2);
    state.announcement_serial = u64::MAX;
    assert_eq!(state.next_announcement_serial(), 0);
    let mut f = Focus::new();
    f.set_programmatic(NodeId(1));
    assert!(f.programmatic);
    f.set(NodeId(2));
    assert_eq!(f.node, Some(NodeId(2)));
    f.clear();
    assert_eq!(f.node, None);
    assert!(Mode::Active.is_active());
}

#[test]
fn runtime_accessibility_requests() {
    match announce("Error".to_string(), Priority::Assertive) {
        Action::Announce { message, priority } => {
            assert_eq!(message, "Error");
            assert_eq!(priority, Priority::Assertive);
        }
        _ => panic!("not an announcement"),
    }
    assert!(matches!(focus_request(NodeId(5)), Action::Focus { target: NodeId(5) }));
    assert_eq!(Priority::default(), Priority::Polite);
}

#[test]
fn word_starts_from_lengths() {
    assert_eq!(word_starts(&[]), Some(vec![]));
    assert_eq!(word_starts(&[5, 1, 6]), Some(vec![0, 5, 6]));
    assert_eq!(word_starts(&[200, 55, 255]), Some(vec![0, 200, 255]));
    assert_eq!(word_starts(&[200, 56, 1]), None);
    assert_eq!(word_starts(&[255, 255]), Some(vec![0, 255]));
}
