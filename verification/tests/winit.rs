use icy_ui::runtime::accessibility::Priority;
use icy_ui::winit::{focus_announcement, root_children, Announcer, Live, TreeAnnouncer};
use icy_ui::accessibility::NodeId;
use icy_ui::clipboard::Platform;
use icy_ui::dnd::{DndAction, DropResult};
use icy_ui::keyboard::{Key, Modifiers};
use icy_ui::menu::{AppMenu, MenuId, MenuKind, MenuNode, MenuShortcut};
use icy_ui::winit::{
    convert_dnd_action, convert_wayland_action, emulates_wake_up, menu_for_platform,
    next_runner_step, resolve_control_flow, user_force_quit, AdapterState, Control, ControlFlow,
    DndReaction, ProcessedEvent, RunnerStep, WaylandDnd, WaylandDndEvent, WindowDragEvent,
};

#[test]
fn processed_events() {
    assert_eq!(ProcessedEvent::ActionRequested(5u8).into_event(), Some(5));
    assert_eq!(ProcessedEvent::<u8>::Activated.into_event(), None);
    let mut state = AdapterState::new();
    assert!(!state.is_enabled());
    assert_eq!(state.tree_update_focus(Some(NodeId(3))), None);
    state.observe(&ProcessedEvent::<u8>::Activated);
    assert!(state.is_enabled());
    assert_eq!(state.tree_update_focus(None), Some(NodeId(0)));
    assert_eq!(state.tree_update_focus(Some(NodeId(3))), Some(NodeId(3)));
    state.observe(&ProcessedEvent::<u8>::InitialTreeRequested);
    assert!(state.is_enabled());
    state.observe(&ProcessedEvent::<u8>::Deactivated);
    assert!(!state.is_enabled());
    state.activate();
    state.deactivate();
    assert!(!state.is_enabled());
}

#[test]
fn force_quit_is_command_q_on_macos() {
    let q = Key::Character("q".to_string());
    assert!(user_force_quit(Platform::MacOs, &q, true, Modifiers::LOGO()));
    assert!(!user_force_quit(Platform::MacOs, &q, false, Modifiers::LOGO()));
    assert!(!user_force_quit(Platform::MacOs, &q, true, Modifiers::CTRL()));
    assert!(!user_force_quit(Platform::Unix, &q, true, Modifiers::LOGO()));
    assert!(!user_force_quit(Platform::MacOs, &Key::Character("w".to_string()), true, Modifiers::LOGO()));
}

#[test]
fn control_flow_resolution() {
    assert_eq!(resolve_control_flow(ControlFlow::WaitUntil(5), ControlFlow::WaitUntil(9), 0), ControlFlow::WaitUntil(5));
    assert_eq!(resolve_control_flow(ControlFlow::WaitUntil(9), ControlFlow::WaitUntil(5), 0), ControlFlow::WaitUntil(5));
    assert_eq!(resolve_control_flow(ControlFlow::WaitUntil(9), ControlFlow::Wait, 3), ControlFlow::WaitUntil(9));
    assert_eq!(resolve_control_flow(ControlFlow::WaitUntil(9), ControlFlow::Wait, 10), ControlFlow::Wait);
    assert_eq!(resolve_control_flow(ControlFlow::Wait, ControlFlow::Poll, 10), ControlFlow::Poll);
    assert!(emulates_wake_up(Platform::Windows, true));
    assert!(!emulates_wake_up(Platform::Unix, true));
}

#[test]
fn runner_steps() {
    let step: RunnerStep<u8, u8> = next_runner_step(true, None, ControlFlow::Wait, 0, Platform::Unix, false);
    assert!(matches!(step, RunnerStep::Finished));
    assert!(!step.polls_again());
    let step: RunnerStep<u8, u8> = next_runner_step(false, None, ControlFlow::Wait, 0, Platform::Unix, false);
    assert!(matches!(step, RunnerStep::Idle));
    let step: RunnerStep<u8, u8> = next_runner_step(false, Some(Control::ChangeFlow(ControlFlow::WaitUntil(3))), ControlFlow::WaitUntil(2), 0, Platform::Unix, false);
    assert!(matches!(step, RunnerStep::SetControlFlow(ControlFlow::WaitUntil(2))));
    assert!(step.polls_again());
    let step: RunnerStep<u8, u8> = next_runner_step(false, Some(Control::Crash(7)), ControlFlow::Wait, 0, Platform::Unix, false);
    assert!(matches!(step, RunnerStep::Crash(7)));
    assert!(step.polls_again());
    let step: RunnerStep<u8, u8> = next_runner_step(false, Some(Control::Exit), ControlFlow::Wait, 0, Platform::Unix, false);
    assert!(!step.polls_again());
    let step: RunnerStep<u8, u8> = next_runner_step(false, Some(Control::SetAutomaticWindowTabbing(true)), ControlFlow::Wait, 0, Platform::Unix, false);
    assert!(matches!(step, RunnerStep::Continue));
    let step: RunnerStep<u8, u8> = next_runner_step(false, Some(Control::SetAutomaticWindowTabbing(true)), ControlFlow::Wait, 0, Platform::MacOs, false);
    assert!(matches!(step, RunnerStep::SetAutomaticWindowTabbing(true)));
    let step: RunnerStep<u8, u8> = next_runner_step(false, Some(Control::SetApplicationMenu(Some(AppMenu::new(vec![])))), ControlFlow::Wait, 0, Platform::MacOs, true);
    assert!(matches!(step, RunnerStep::SyncApplicationMenu(_)));
    let step: RunnerStep<u8, u8> = next_runner_step(false, Some(Control::SetApplicationMenu(None)), ControlFlow::Wait, 0, Platform::MacOs, true);
    assert!(matches!(step, RunnerStep::Continue));
    let step: RunnerStep<u8, u8> = next_runner_step(false, Some(Control::CreateWindow(4)), ControlFlow::Wait, 0, Platform::Unix, false);
    assert!(matches!(step, RunnerStep::CreateWindow(4)));
}

#[test]
fn wayland_actions() {
    assert_eq!(convert_dnd_action(DndAction::Copy), 1);
    assert_eq!(convert_dnd_action(DndAction::Move), 2);
    assert_eq!(convert_dnd_action(DndAction::Ask), 4);
    assert_eq!(convert_dnd_action(DndAction::Link), 0);
    assert_eq!(convert_dnd_action(DndAction::NoAction), 0);
    assert_eq!(convert_wayland_action(3), DndAction::Copy);
    assert_eq!(convert_wayland_action(6), DndAction::Move);
    assert_eq!(convert_wayland_action(4), DndAction::Ask);
    assert_eq!(convert_wayland_action(0), DndAction::NoAction);
}

#[test]
fn wayland_drag_and_drop() {
    let mut dnd = WaylandDnd::new((0, 0));
    assert!(matches!(
        dnd.handle(WaylandDndEvent::OfferEnter { position: (3, 4), mime_types: vec!["text/plain".to_string()] }),
        DndReaction::Report(WindowDragEvent::Entered { position: (3, 4), .. })
    ));
    assert!(matches!(dnd.handle(WaylandDndEvent::OfferSelectedAction(2)), DndReaction::Nothing));
    assert!(matches!(dnd.handle(WaylandDndEvent::OfferMotion { position: (5, 6) }), DndReaction::Report(WindowDragEvent::Moved { position: (5, 6) })));
    assert!(matches!(dnd.handle(WaylandDndEvent::OfferDrop), DndReaction::Nothing));
    match dnd.handle(WaylandDndEvent::OfferData { data: vec![1, 2], mime_type: "text/plain".to_string() }) {
        DndReaction::DeliverAndReport { mime_type, data, event: WindowDragEvent::Dropped { position, action, .. } } => {
            assert_eq!(mime_type, "text/plain");
            assert_eq!(data, vec![1, 2]);
            assert_eq!(position, (5, 6));
            assert_eq!(action, DndAction::Move);
        }
        other => panic!("unexpected {:?}", other),
    }
    assert!(matches!(dnd.handle(WaylandDndEvent::OfferLeave), DndReaction::Report(WindowDragEvent::Left)));
    // No drag of ours: finishing reports nothing.
    assert!(matches!(dnd.handle(WaylandDndEvent::SourceFinished), DndReaction::Nothing));
    assert_eq!(dnd.start_drag(false), Some(DropResult::Cancelled));
    assert_eq!(dnd.start_drag(true), None);
    assert!(matches!(dnd.handle(WaylandDndEvent::SourceAction(1)), DndReaction::Nothing));
    assert!(matches!(dnd.handle(WaylandDndEvent::SourceDropped), DndReaction::Nothing));
    assert!(matches!(dnd.handle(WaylandDndEvent::SourceFinished), DndReaction::CompleteDrag(DropResult::Dropped(DndAction::Copy))));
    assert!(matches!(dnd.handle(WaylandDndEvent::SourceCancelled), DndReaction::Nothing));
    assert_eq!(dnd.start_drag(true), None);
    assert!(matches!(dnd.handle(WaylandDndEvent::SourceCancelled), DndReaction::CompleteDrag(DropResult::Cancelled)));
    assert_eq!(dnd.start_drag(true), None);
    assert_eq!(dnd.on_drag_finished(DropResult::Dropped(DndAction::Link)), Some(DropResult::Dropped(DndAction::Link)));
    assert_eq!(dnd.on_drag_finished(DropResult::Cancelled), None);
}

#[test]
fn native_menus() {
    let menu = AppMenu::new(vec![
        MenuNode::submenu_with_id(
            MenuId(1),
            "File".to_string(),
            vec![
                MenuNode::item_with_id(MenuId(2), "Open".to_string(), "open")
                    .shortcut(MenuShortcut::cmd(Key::Character("o".to_string()))),
                MenuNode::separator_with_id(MenuId(3)),
                MenuNode::check_item_with_id(MenuId(4), "Autosave".to_string(), true, "autosave"),
            ],
        ),
        MenuNode::quit("quit"),
    ]);
    let (native, actions, signature) = menu_for_platform(menu);
    assert_eq!(actions, vec![(MenuId(2), "open"), (MenuId(4), "autosave"), (MenuId::from_str("app.quit"), "quit")]);
    match &native.roots[0].kind {
        MenuKind::Submenu { label, children, .. } => {
            assert_eq!(label, "File");
            assert!(matches!(children[0].kind, MenuKind::Item { on_activate: MenuId(2), shortcut: Some(_), .. }));
            assert!(matches!(children[1].kind, MenuKind::Separator));
            assert!(matches!(children[2].kind, MenuKind::CheckItem { on_activate: MenuId(4), checked: true, .. }));
        }
        _ => panic!("not a submenu"),
    }
    let again = AppMenu::new(vec![MenuNode::quit(())]);
    let (_, _, s1) = menu_for_platform(again);
    let (_, _, s2) = menu_for_platform(AppMenu::new(vec![MenuNode::quit(())]));
    assert_eq!(s1, s2);
    let (_, _, s3) = menu_for_platform(AppMenu::new(vec![MenuNode::quit(()).enabled(false)]));
    assert_ne!(s1, s3);
    assert_ne!(signature, s1);
}

#[test]
fn accessibility_tree_announcements() {
    assert_eq!(focus_announcement("Button", Some("OK"), Some("")), "Button: OK");
    assert_eq!(focus_announcement("TextInput", Some("Name"), Some("Bob")), "TextInput: Name, Bob");
    assert_eq!(focus_announcement("TextInput", None, Some("Bob")), "TextInput: Bob");
    assert_eq!(focus_announcement("Label", None, Some("")), "Label");
    assert_eq!(focus_announcement("Label", None, None), "Label");

    let mut t = TreeAnnouncer::new();
    let silent = t.take_announcer();
    assert_eq!(silent, Announcer { label: None, live: Live::Off });
    t.pending_announcement = Some(("Saved".to_string(), Priority::Assertive));
    let a = t.take_announcer();
    assert_eq!(a.label.as_deref(), Some("Saved (1)"));
    assert_eq!(a.live, Live::Assertive);
    assert!(t.pending_announcement.is_none());

    t.focus_override = Some(NodeId(7));
    assert_eq!(t.take_focus(Some(NodeId(3))), Some(NodeId(7)));
    assert_eq!(t.take_focus(Some(NodeId(3))), Some(NodeId(3)));

    let mut announcer = Announcer { label: None, live: Live::Off };
    t.announce_focus_change(Some(NodeId(3)), Some(("Button".to_string(), Some("OK".to_string()), None)), &mut announcer);
    assert_eq!(announcer.label.as_deref(), Some("Button: OK (2)"));
    assert_eq!(announcer.live, Live::Polite);
    let mut again = Announcer { label: None, live: Live::Off };
    t.announce_focus_change(Some(NodeId(3)), Some(("Button".to_string(), None, None)), &mut again);
    assert_eq!(again.label, None);
    assert_eq!(t.last_focused, Some(NodeId(3)));
    t.announcement_serial = 1234567;
    t.announce_focus_change(Some(NodeId(4)), Some(("Link".to_string(), None, None)), &mut again);
    assert_eq!(again.label.as_deref(), Some("Link (1234568)"));
    assert_eq!(root_children(&[NodeId(5), NodeId(6)]), vec![NodeId(1), NodeId(5), NodeId(6)]);
}
