use icy_ui::macos::{
    dragging_entered, dragging_exited, dragging_updated, file_paths_from_pasteboard,
    format_to_uti, formats_from_pasteboard, operation_to_result, payload_from_pasteboard,
    percent_decode, perform_drag_operation, source_operation_mask, DragError, DragOperation,
    DragResult, DropAction, DropEvent, MacContextMenu, MacMenu, MenuError,
};

#[test]
fn test_drag_operation_bitflags() {
    let ops = DragOperation::COPY() | DragOperation::MOVE();
    assert_eq!(ops.bits(), 17); // 1 | 16
}

#[test]
fn test_format_conversion() {
    assert_eq!(format_to_uti("text/plain"), "public.utf8-plain-text");
    assert_eq!(format_to_uti("text/uri-list"), "public.url");
    assert_eq!(format_to_uti("custom/type"), "custom/type");
}

#[test]
fn more_format_conversions() {
    assert_eq!(format_to_uti("text/plain;charset=utf-8"), "public.utf8-plain-text");
    assert_eq!(format_to_uti("text/html"), "public.html");
    assert_eq!(format_to_uti("image/png"), "public.png");
    assert_eq!(format_to_uti("image/jpeg"), "public.jpeg");
    assert_eq!(format_to_uti("application/json"), "public.json");
}

#[test]
fn drag_operation_constants() {
    assert_eq!(DragOperation::NONE().bits(), 0);
    assert_eq!(DragOperation::COPY().bits(), 1);
    assert_eq!(DragOperation::LINK().bits(), 2);
    assert_eq!(DragOperation::MOVE().bits(), 16);
    assert_eq!(DragOperation::ALL().bits(), 19);
    assert_eq!((DragOperation::LINK() | DragOperation::NONE()).bits(), 2);
}

#[test]
fn operation_results_prefer_move_then_copy_then_link() {
    assert_eq!(operation_to_result(0), DragResult::Cancelled);
    assert_eq!(operation_to_result(1), DragResult::Copied);
    assert_eq!(operation_to_result(2), DragResult::Linked);
    assert_eq!(operation_to_result(3), DragResult::Copied);
    assert_eq!(operation_to_result(19), DragResult::Moved);
    assert_eq!(operation_to_result(4), DragResult::Cancelled);
    assert_eq!(DropAction::from_operation(16), DropAction::Move);
    assert_eq!(DropAction::from_operation(3), DropAction::Copy);
    assert_eq!(DropAction::from_operation(2), DropAction::Link);
    assert_eq!(DropAction::from_operation(8), DropAction::NoAction);
}

#[test]
fn percent_decoding() {
    assert_eq!(percent_decode("/tmp/a%20b.txt"), "/tmp/a b.txt");
    assert_eq!(percent_decode("100%"), "100%");
    assert_eq!(percent_decode("%zz"), "%zz");
    assert_eq!(percent_decode("%4"), "\u{4}");
    assert_eq!(percent_decode("%+5x"), "\u{5}x");
    assert_eq!(percent_decode("%C3%A9"), "\u{e9}");
    assert_eq!(percent_decode("caf%C3%A9"), "café");
    assert_eq!(percent_decode("/tmp/My%20File.txt"), "/tmp/My File.txt");
    assert_eq!(percent_decode("%41%42"), "AB");
    assert_eq!(percent_decode("100%zz"), "100%zz");
    assert_eq!(percent_decode("%FF"), "\u{fffd}");
    assert_eq!(percent_decode("é%zé"), "é%zé");
    assert_eq!(percent_decode("%é1"), "%é1");
    assert_eq!(percent_decode("plain"), "plain");
    assert_eq!(percent_decode(""), "");
}

#[test]
fn pasteboard_formats_in_order() {
    let types: Vec<String> = vec![
        "NSFilenamesPboardType".to_string(),
        "public.png".to_string(),
        "public.utf8-plain-text".to_string(),
        "public.file-url".to_string(),
    ];
    assert_eq!(
        formats_from_pasteboard(&types),
        vec!["text/plain", "text/uri-list", "image/png", "text/uri-list"]
    );
    assert!(formats_from_pasteboard(&[]).is_empty());
}

#[test]
fn pasteboard_file_paths() {
    assert_eq!(
        file_paths_from_pasteboard(Some(vec!["/a".to_string()]), Some("file:///b".to_string())),
        Some(vec!["/a".to_string()])
    );
    assert_eq!(
        file_paths_from_pasteboard(Some(vec![]), Some("file:///tmp/x%20y".to_string())),
        Some(vec!["/tmp/x y".to_string()])
    );
    assert_eq!(
        file_paths_from_pasteboard(None, Some("file:///tmp/caf%C3%A9.txt".to_string())),
        Some(vec!["/tmp/café.txt".to_string()])
    );
    assert_eq!(file_paths_from_pasteboard(None, Some("http://x".to_string())), None);
    assert_eq!(file_paths_from_pasteboard(None, None), None);
}

#[test]
fn pasteboard_payload_priority() {
    assert_eq!(
        payload_from_pasteboard(Some("hi".to_string()), Some("u".to_string()), None, None),
        Some((b"hi".to_vec(), "text/plain".to_string()))
    );
    assert_eq!(
        payload_from_pasteboard(None, Some("https://x".to_string()), Some(vec![1]), None),
        Some((b"https://x".to_vec(), "text/uri-list".to_string()))
    );
    assert_eq!(
        payload_from_pasteboard(None, None, Some(vec![1]), Some(vec![2])),
        Some((vec![1], "text/html".to_string()))
    );
    assert_eq!(
        payload_from_pasteboard(None, None, None, Some(vec![2])),
        Some((vec![2], "image/png".to_string()))
    );
    assert_eq!(payload_from_pasteboard(None, None, None, None), None);
}

#[test]
fn drop_target_answers() {
    let (events, op) = dragging_entered((1, 2), vec!["text/plain".to_string()], Some(vec!["/f".to_string()]));
    assert_eq!(op, 1);
    assert_eq!(events.len(), 2);
    assert!(matches!(&events[0], DropEvent::FileHovered(p) if p == "/f"));
    assert!(matches!(&events[1], DropEvent::DragEntered { position: (1, 2), .. }));

    let (moved, op) = dragging_updated((3, 4));
    assert_eq!(op, 1);
    assert!(matches!(moved, DropEvent::DragMoved { position: (3, 4) }));
    assert!(matches!(dragging_exited::<(i32, i32)>(), (DropEvent::DragLeft, DropEvent::FilesHoveredLeft)));

    let (events, ok) = perform_drag_operation((0, 0), 1, Some(vec!["/a".to_string(), "/b".to_string()]), None);
    assert!(ok);
    assert!(matches!(&events[0], DropEvent::FileDropped(p) if p == "/a"));
    assert!(matches!(&events[1], DropEvent::FileDropped(p) if p == "/b"));
    assert!(matches!(&events[2], DropEvent::FilesHoveredLeft));

    let (events, ok) = perform_drag_operation((0, 0), 17, None, Some((vec![9], "image/png".to_string())));
    assert!(ok);
    assert!(matches!(&events[0], DropEvent::DragDropped { action: DropAction::Move, .. }));

    let (events, ok) = perform_drag_operation((5, 6), 1, None, None);
    assert!(!ok);
    match &events[0] {
        DropEvent::DragDropped { position, data, format, action } => {
            assert_eq!(*position, (5, 6));
            assert!(data.is_empty());
            assert_eq!(format, "unknown");
            assert_eq!(*action, DropAction::NoAction);
        }
        other => panic!("unexpected {:?}", other),
    }
}

#[test]
fn source_masks_and_stubs() {
    assert_eq!(source_operation_mask(19, 0), 19);
    assert_eq!(source_operation_mask(19, 1), 19);
    assert_eq!(source_operation_mask(19, 7), 0);
    assert!(matches!(MacMenu::new(), Err(MenuError::NotSupported)));
    assert!(matches!(MacContextMenu::new(), Err(MenuError::NotSupported)));
    assert_eq!(DragError::InvalidView.message(), "Invalid NSView pointer");
    assert_eq!(MenuError::NotSupported.message(), "Menu operations not supported on this platform");
}
