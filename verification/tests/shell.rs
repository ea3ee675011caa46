use icy_ui::accessibility::NodeId;
use icy_ui::event::Status;
use icy_ui::input_method::{InputMethod, Preedit, Purpose};
use icy_ui::menu::{ContextMenuItem, MenuId};
use icy_ui::shell::Shell;
use icy_ui::window::RedrawRequest;

type TestShell<'a> = Shell<'a, u32, (i32, i32), u16>;

#[test]
fn published_messages_reach_the_buffer() {
    let mut messages: Vec<u32> = vec![1];
    {
        let mut shell: TestShell = Shell::new(&mut messages);
        assert!(!shell.is_empty());
        shell.publish(2);
        shell.publish(3);
    }
    assert_eq!(messages, vec![1, 2, 3]);
}

#[test]
fn a_new_shell_is_quiet() {
    let mut messages: Vec<u32> = Vec::new();
    let shell: TestShell = Shell::new(&mut messages);
    assert!(shell.is_empty());
    assert_eq!(shell.event_status(), Status::Ignored);
    assert_eq!(shell.redraw_request(), RedrawRequest::Wait);
    assert!(matches!(shell.input_method(), InputMethod::Disabled));
    assert!(!shell.is_layout_invalid());
    assert!(!shell.are_widgets_invalid());
    assert!(!shell.has_context_menu_request());
}

#[test]
fn capture_and_uncapture() {
    let mut messages: Vec<u32> = Vec::new();
    let mut shell: TestShell = Shell::new(&mut messages);
    shell.capture_event();
    assert!(shell.is_event_captured());
    assert_eq!(shell.event_status(), Status::Captured);
    shell.uncapture_event();
    assert!(!shell.is_event_captured());
}

#[test]
fn redraw_requests_keep_the_most_urgent() {
    let mut messages: Vec<u32> = Vec::new();
    let mut shell: TestShell = Shell::new(&mut messages);
    shell.request_redraw_at(RedrawRequest::At(50));
    assert_eq!(shell.redraw_request(), RedrawRequest::At(50));
    shell.request_redraw_at(RedrawRequest::At(80));
    assert_eq!(shell.redraw_request(), RedrawRequest::At(50));
    shell.request_redraw_at(RedrawRequest::At(20));
    assert_eq!(shell.redraw_request(), RedrawRequest::At(20));
    shell.request_redraw_at(RedrawRequest::Wait);
    assert_eq!(shell.redraw_request(), RedrawRequest::At(20));
    shell.request_redraw();
    assert_eq!(shell.redraw_request(), RedrawRequest::NextFrame);
    Shell::replace_redraw_request(&mut shell, RedrawRequest::Wait);
    assert_eq!(shell.redraw_request(), RedrawRequest::Wait);
    assert_eq!(RedrawRequest::At(3).min(RedrawRequest::NextFrame), RedrawRequest::NextFrame);
}

#[test]
fn layout_revalidation_runs_once() {
    let mut messages: Vec<u32> = Vec::new();
    let mut shell: TestShell = Shell::new(&mut messages);
    shell.invalidate_layout();
    assert!(shell.is_layout_invalid());
    let mut calls = 0;
    shell.revalidate_layout(|| calls += 1);
    shell.revalidate_layout(|| calls += 1);
    assert_eq!(calls, 1);
    assert!(!shell.is_layout_invalid());
    shell.invalidate_widgets();
    assert!(shell.are_widgets_invalid());
}

#[test]
fn requests_are_taken_once() {
    let mut messages: Vec<u32> = Vec::new();
    let mut shell: TestShell = Shell::new(&mut messages);
    shell.request_context_menu((4, 5), vec![ContextMenuItem::separator(MenuId(1))]);
    assert!(shell.has_context_menu_request());
    let request = shell.take_context_menu_request().expect("a request");
    assert_eq!(request.position, (4, 5));
    assert_eq!(request.items.len(), 1);
    assert!(shell.take_context_menu_request().is_none());
    shell.request_a11y_focus(NodeId(9));
    assert_eq!(shell.take_a11y_focus_request(), Some(NodeId(9)));
    assert_eq!(shell.take_a11y_focus_request(), None);
}

#[test]
fn input_methods_keep_the_first_open_one() {
    let mut messages: Vec<u32> = Vec::new();
    let mut shell: TestShell = Shell::new(&mut messages);
    let first: InputMethod<(i32, i32), u16> = InputMethod::Enabled {
        position: (1, 1),
        purpose: Purpose::Normal,
        preedit: Some(Preedit { content: "ka".to_string(), selection: Some((0, 2)), text_size: Some(12) }),
    };
    let second: InputMethod<(i32, i32), u16> =
        InputMethod::Enabled { position: (9, 9), purpose: Purpose::Secure, preedit: None };
    shell.request_input_method(&InputMethod::Disabled);
    assert!(matches!(shell.input_method(), InputMethod::Disabled));
    shell.request_input_method(&first);
    shell.request_input_method(&second);
    match shell.input_method() {
        InputMethod::Enabled { position, purpose, preedit } => {
            assert_eq!(*position, (1, 1));
            assert_eq!(*purpose, Purpose::Normal);
            assert_eq!(preedit.as_ref().map(|p| p.content.as_str()), Some("ka"));
        }
        InputMethod::Disabled => panic!("disabled"),
    }
    *shell.input_method_mut() = InputMethod::Disabled;
    assert!(matches!(shell.input_method(), InputMethod::Disabled));
}

#[test]
fn merging_shells() {
    let mut outer_messages: Vec<String> = vec!["a".to_string()];
    let mut inner_messages: Vec<u32> = vec![1, 2];
    {
        let mut outer: Shell<String, (i32, i32), u16> = Shell::new(&mut outer_messages);
        outer.request_redraw_at(RedrawRequest::At(100));
        let mut inner: Shell<u32, (i32, i32), u16> = Shell::new(&mut inner_messages);
        inner.publish(3);
        inner.capture_event();
        inner.invalidate_layout();
        inner.request_redraw_at(RedrawRequest::At(10));
        inner.request_context_menu((0, 0), vec![]);
        inner.request_a11y_focus(NodeId(5));
        outer.merge(inner, |n| format!("m{n}"));
        assert!(outer.is_event_captured());
        assert!(outer.is_layout_invalid());
        assert!(!outer.are_widgets_invalid());
        assert_eq!(outer.redraw_request(), RedrawRequest::At(10));
        assert!(outer.has_context_menu_request());
        assert_eq!(outer.take_a11y_focus_request(), Some(NodeId(5)));
    }
    assert_eq!(outer_messages, vec!["a", "m1", "m2", "m3"]);
    assert!(inner_messages.is_empty());
}

#[test]
fn status_merge_prefers_captured() {
    assert_eq!(Status::Ignored.merge(Status::Ignored), Status::Ignored);
    assert_eq!(Status::Ignored.merge(Status::Captured), Status::Captured);
    assert_eq!(Status::Captured.merge(Status::Ignored), Status::Captured);
}
