use icy_ui::clipboard::Platform;
use icy_ui::dnd::{DndAction, DragData, DragIcon, DragSourceEvent, DropResult};
use icy_ui::runtime::dnd::{accept_drag, reject_drag, request_data, start_drag, start_drag_with_actions, Action};
use icy_ui::window::Id;
use std::borrow::Cow;

#[test]
fn drag_data_from_text() {
    let d = DragData::from_text("Hello, world!", Platform::Unix);
    assert_eq!(d.data, b"Hello, world!".to_vec());
    assert_eq!(d.formats, vec!["text/plain;charset=utf-8", "text/plain", "UTF8_STRING", "STRING"]);
    let m = DragData::from_text("é", Platform::MacOs);
    assert_eq!(m.data, "é".as_bytes().to_vec());
    assert_eq!(m.formats, vec!["public.utf8-plain-text", "public.plain-text"]);
}

#[test]
fn drag_data_from_paths() {
    let d = DragData::from_paths(&["/tmp/a.txt".to_string(), "/home/b c".to_string()], Platform::Unix);
    assert_eq!(String::from_utf8(d.data).unwrap(), "file:///tmp/a.txt\r\nfile:///home/b c");
    assert_eq!(d.formats, vec!["text/uri-list", "x-special/gnome-copied-files"]);
    let one = DragData::from_paths(&["/x".to_string()], Platform::Windows);
    assert_eq!(one.data, b"file:///x".to_vec());
    assert_eq!(one.formats, vec!["CF_HDROP"]);
    let none = DragData::from_paths(&[], Platform::Other);
    assert!(none.data.is_empty());
    let raw = DragData::new(vec![1, 2], vec![Cow::Borrowed("a/b")]);
    assert_eq!(raw.data, vec![1, 2]);
}

#[test]
fn drop_results() {
    let dropped = DropResult::Dropped(DndAction::Move);
    assert!(dropped.is_dropped());
    assert!(!dropped.is_cancelled());
    assert_eq!(dropped.action(), Some(DndAction::Move));
    assert!(DropResult::Cancelled.is_cancelled());
    assert_eq!(DropResult::Cancelled.action(), None);
    assert!(DndAction::NoAction.is_none());
    assert!(!DndAction::Copy.is_none());
    assert_eq!(DndAction::default(), DndAction::NoAction);
    assert_eq!(DragSourceEvent::FormatAccepted(Some("x".to_string())), DragSourceEvent::FormatAccepted(Some("x".to_string())));
}

#[test]
fn runtime_dnd_requests() {
    match start_drag(DragData::from_text("t", Platform::Unix), None) {
        Action::StartDrag { allowed_actions, icon, .. } => {
            assert_eq!(allowed_actions, DndAction::Copy);
            assert!(icon.is_none());
        }
        _ => panic!("not a drag"),
    }
    let icon = DragIcon::Buffer { width: 2, height: 2, data: vec![0; 16], hotspot_x: 1, hotspot_y: 1 };
    match start_drag_with_actions(DragData::from_text("t", Platform::Unix), Some(icon), DndAction::Link) {
        Action::StartDrag { allowed_actions, icon: Some(DragIcon::Buffer { width: 2, .. }), .. } => {
            assert_eq!(allowed_actions, DndAction::Link)
        }
        _ => panic!("not a drag"),
    }
    assert!(matches!(accept_drag(Id(1), vec![Cow::Borrowed("text/plain")], DndAction::Copy), Action::AcceptDrag { window: Id(1), action: DndAction::Copy, .. }));
    assert!(matches!(reject_drag(Id(2)), Action::RejectDrag { window: Id(2) }));
    assert!(matches!(request_data(Id(3), "image/png".to_string()), Action::RequestData { window: Id(3), .. }));
}
