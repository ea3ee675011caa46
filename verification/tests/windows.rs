use icy_ui::windows::{
    check_request, choose_payload, clipboard_format_for, drag_enter, drag_leave, drag_outcome,
    drag_over, drop, encode_utf16, enumerate_formats, give_feedback, hdrop_paths, medium_bytes,
    query_continue_drag, query_get_data, text_from_wide, to_le_bytes, ClipboardFormat, DragError,
    DragOperation, DragResult, DropAction, DropEvent, OfferedFormats, DV_E_FORMATETC, DV_E_TYMED,
};

#[test]
fn operations_and_effects() {
    assert_eq!((DragOperation::COPY() | DragOperation::MOVE()).to_dropeffect(), 3);
    assert_eq!(DragOperation::ALL().to_dropeffect(), 7);
    assert_eq!(DragOperation::LINK().to_dropeffect(), 4);
    assert_eq!(DragOperation::NONE().to_dropeffect(), 0);
    assert_eq!(DragResult::from_effect(7), DragResult::Moved);
    assert_eq!(DragResult::from_effect(5), DragResult::Copied);
    assert_eq!(DragResult::from_effect(4), DragResult::Linked);
    assert_eq!(DragResult::from_effect(0), DragResult::Cancelled);
    assert_eq!(DropAction::from_effect(2), DropAction::Move);
    assert_eq!(DropAction::from_effect(8), DropAction::NoAction);
}

#[test]
fn ole_answers() {
    assert_eq!(drag_outcome(0x00040100, 1), Ok(DragResult::Copied));
    assert_eq!(drag_outcome(0x00040101, 1), Ok(DragResult::Cancelled));
    assert_eq!(drag_outcome(0, 2), Ok(DragResult::Moved));
    assert_eq!(drag_outcome(-2147467259, 1), Err(-2147467259));
    assert_eq!(query_continue_drag(true, 1), 0x00040101);
    assert_eq!(query_continue_drag(false, 0), 0x00040100);
    assert_eq!(query_continue_drag(false, 1), 0);
    assert_eq!(give_feedback(1), 0x00040102);
    assert_eq!(DragError::WindowsError("boom".to_string()).message(), "Windows error: boom");
    assert_eq!(DragError::ComInitFailed.message(), "Failed to initialize COM");
}

#[test]
fn data_object_formats() {
    assert_eq!(clipboard_format_for("text/plain"), ClipboardFormat::Standard(13));
    assert_eq!(clipboard_format_for("text/uri-list"), ClipboardFormat::Registered("UniformResourceLocatorW".to_string()));
    assert_eq!(clipboard_format_for("image/png"), ClipboardFormat::Registered("image/png".to_string()));
    assert_eq!(check_request(13, 1, 13), Ok(()));
    assert_eq!(check_request(14, 1, 13), Err(DV_E_FORMATETC));
    assert_eq!(check_request(13, 4, 13), Err(DV_E_TYMED));
    assert_eq!(query_get_data(13, 1, 13), 0);
    assert_eq!(query_get_data(13, 2, 13), DV_E_FORMATETC);
}

#[test]
fn medium_layout() {
    assert_eq!(medium_bytes("text/plain", b"hi"), vec![b'h', 0, b'i', 0, 0, 0]);
    assert_eq!(medium_bytes("text/plain;charset=utf-8", "€".as_bytes()), vec![0xac, 0x20, 0, 0]);
    assert_eq!(medium_bytes("image/png", &[1, 2, 3]), vec![1, 2, 3]);
    let expected: Vec<u16> = "a😀".encode_utf16().collect();
    assert_eq!(encode_utf16(&['a', '😀']), expected);
    assert_eq!(to_le_bytes(&[0x1234, 0x0001]), vec![0x34, 0x12, 0x01, 0x00]);
}

#[test]
fn reading_a_drop() {
    let offered = OfferedFormats { files: true, unicode_text: true, html: false, png: true, bitmap: true };
    assert_eq!(enumerate_formats(offered), vec!["text/uri-list", "text/plain", "image/png", "image/bmp"]);
    let wide: Vec<u16> = "héllo\0junk".encode_utf16().collect();
    assert_eq!(text_from_wide(&wide), "héllo".as_bytes().to_vec());
    assert_eq!(text_from_wide(&[0x61, 0x62]), b"ab".to_vec());
    assert_eq!(text_from_wide(&[0x61, 0xD800, 0x62, 0]), "a\u{FFFD}b".as_bytes().to_vec());
    assert_eq!(text_from_wide(&[0xDC00, 0xD83D, 0xDE00]), "\u{FFFD}\u{1F600}".as_bytes().to_vec());
    let paths = hdrop_paths(&["C:\\a".encode_utf16().collect(), vec![], "D:\\b".encode_utf16().collect()]);
    assert_eq!(paths, vec!["C:\\a", "D:\\b"]);
    assert_eq!(choose_payload(None, Some(vec![1]), Some(vec![2]), None, None), Some((vec![1], "text/html".to_string())));
    assert_eq!(choose_payload(None, None, None, None, Some(vec![3])), Some((vec![3], "image/bmp".to_string())));
    assert_eq!(choose_payload(None, None, None, None, None), None);
}

#[test]
fn ole_drop_target_answers() {
    let (events, effect) = drag_enter((1, 1), vec!["text/plain".to_string()], &["C:\\f".to_string()]);
    assert_eq!(effect, 1);
    assert!(matches!(&events[0], DropEvent::DragEntered { .. }));
    assert!(matches!(&events[1], DropEvent::FileHovered(p) if p == "C:\\f"));
    assert!(matches!(drag_over((2, 2)), (DropEvent::DragMoved { position: (2, 2) }, 1)));
    assert!(matches!(drag_leave::<(i32, i32)>(), (DropEvent::DragLeft, DropEvent::FilesHoveredLeft)));
    let (events, effect) = drop((0, 0), true, &["C:\\f".to_string()], None);
    assert_eq!(effect, 1);
    assert!(matches!(&events[0], DropEvent::FileDropped(p) if p == "C:\\f"));
    assert!(matches!(&events[1], DropEvent::FilesHoveredLeft));
    let (events, effect) = drop((0, 0), false, &[], Some((vec![5], "image/png".to_string())));
    assert_eq!(effect, 1);
    assert!(matches!(&events[0], DropEvent::DragDropped { action: DropAction::Copy, .. }));
    let (events, effect) = drop((3, 4), false, &[], None);
    assert_eq!(effect, 0);
    match &events[0] {
        DropEvent::DragDropped { position, data, format, action } => {
            assert_eq!(*position, (3, 4));
            assert!(data.is_empty());
            assert_eq!(format, "unknown");
            assert_eq!(*action, DropAction::Copy);
        }
        other => panic!("unexpected {:?}", other),
    }
}
