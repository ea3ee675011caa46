use icy_ui::keyboard::{Key, Modifiers, ALT_BIT, CTRL_BIT, SHIFT_BIT};
use icy_ui::menu::{
    fnv1a_hash_location, fnv1a_hash_str, AppMenu, ContextMenuItem, ContextMenuItemKind, MenuId,
    MenuKind, MenuNode, MenuRole, MenuShortcut,
};
use icy_ui::runtime::context_menu::menu_nodes_to_items;

#[test]
fn fnv1a_known_values() {
    // The FNV-1a offset basis for the empty string, and a published value.
    assert_eq!(fnv1a_hash_str(""), 0xcbf29ce484222325);
    assert_eq!(fnv1a_hash_str("a"), 0xaf63dc4c8601ec8c);
    assert_eq!(MenuId::from_str("a"), MenuId(0xaf63dc4c8601ec8c));
}

#[test]
fn menu_ids_are_stable_and_distinct() {
    assert_eq!(MenuId::from_str("file.open"), MenuId::from_str("file.open"));
    assert_ne!(MenuId::from_str("file.open"), MenuId::from_str("file.save"));
    let parent = MenuId::from_str("window");
    assert_eq!(parent.child(3), parent.child(3));
    assert_ne!(parent.child(3), parent.child(4));
    assert_eq!(parent.child_str("x"), parent.child(fnv1a_hash_str("x")));
    assert_eq!(MenuId::from_u64(7).as_u64(), 7);
}

#[test]
fn location_hash_mixes_path_separator_and_line() {
    let a = fnv1a_hash_location("src/main.rs", 10);
    assert_eq!(a, fnv1a_hash_location("src/main.rs", 10));
    assert_ne!(a, fnv1a_hash_location("src/main.rs", 11));
    assert_eq!(MenuId::from_location("src/main.rs", 10).0, a);
}

#[test]
fn shortcuts_carry_their_modifiers() {
    let key = || Key::Character("s".to_string());
    assert_eq!(MenuShortcut::cmd(key()).modifiers.bits, CTRL_BIT);
    assert_eq!(MenuShortcut::cmd_shift(key()).modifiers.bits, CTRL_BIT | SHIFT_BIT);
    assert_eq!(MenuShortcut::cmd_alt(key()).modifiers.bits, CTRL_BIT | ALT_BIT);
    assert_eq!(MenuShortcut::shift(key()).modifiers.bits, SHIFT_BIT);
    assert_eq!(MenuShortcut::alt(key()).modifiers.bits, ALT_BIT);
    assert_eq!(MenuShortcut::key_only(key()).modifiers.bits, 0);
    let s = MenuShortcut::new(Modifiers::LOGO(), key());
    assert_eq!(s.key, Key::Character("s".to_string()));
}

#[test]
fn role_items_use_fixed_ids() {
    let quit = MenuNode::quit(1u8);
    assert_eq!(quit.id, MenuId::from_str("app.quit"));
    assert_eq!(quit.role, MenuRole::Quit);
    assert!(matches!(&quit.kind, MenuKind::Item { label, enabled: true, shortcut: None, on_activate: 1 } if label == "Quit"));
    let about = MenuNode::about("About Me".to_string(), 2u8);
    assert_eq!(about.id, MenuId::from_str("app.about"));
    assert_eq!(about.role, MenuRole::About);
    let prefs = MenuNode::preferences("Settings".to_string(), 3u8);
    assert_eq!(prefs.id, MenuId::from_str("app.preferences"));
    assert_eq!(prefs.role, MenuRole::Preferences);
}

#[test]
fn empty_submenus() {
    let help = MenuNode::submenu_with_id(
        MenuId(1),
        "Help".to_string(),
        vec![MenuNode::about("About".to_string(), 0u8)],
    );
    assert!(help.is_empty_submenu());
    let nested = MenuNode::submenu_with_id(MenuId(2), "Outer".to_string(), vec![help]);
    assert!(nested.is_empty_submenu());
    let file = MenuNode::submenu_with_id(
        MenuId(3),
        "File".to_string(),
        vec![MenuNode::item_with_id(MenuId(4), "Open".to_string(), 0u8)],
    );
    assert!(!file.is_empty_submenu());
    assert!(!MenuNode::<u8>::separator_with_id(MenuId(5)).is_empty_submenu());
    let empty: MenuNode<u8> = MenuNode::submenu_with_id(MenuId(6), "E".to_string(), vec![]);
    assert!(empty.is_empty_submenu());
}

#[test]
fn shortcut_and_enabled_only_touch_their_kinds() {
    let item = MenuNode::item_with_id(MenuId(1), "Save".to_string(), 0u8)
        .shortcut(MenuShortcut::cmd(Key::Character("s".to_string())))
        .enabled(false);
    match &item.kind {
        MenuKind::Item { enabled, shortcut, .. } => {
            assert!(!enabled);
            assert!(shortcut.is_some());
        }
        _ => panic!("not an item"),
    }
    let sep = MenuNode::<u8>::separator_with_id(MenuId(2))
        .shortcut(MenuShortcut::key_only(Key::Unidentified))
        .enabled(false);
    assert!(matches!(sep.kind, MenuKind::Separator));
    let check = MenuNode::check_item_with_id(MenuId(3), "Wrap".to_string(), true, 0u8)
        .with_role(MenuRole::ApplicationSpecific);
    assert_eq!(check.role, MenuRole::ApplicationSpecific);
    assert!(matches!(check.kind, MenuKind::CheckItem { checked: true, .. }));
    let menu = AppMenu::new(vec![check]);
    assert_eq!(menu.roots.len(), 1);
}

#[test]
fn context_items_mirror_nodes() {
    let nodes = vec![
        MenuNode::item_with_id(MenuId(1), "Cut".to_string(), 10u8).enabled(false),
        MenuNode::separator_with_id(MenuId(2)),
        MenuNode::submenu_with_id(
            MenuId(3),
            "More".to_string(),
            vec![MenuNode::check_item_with_id(MenuId(4), "Bold".to_string(), true, 11u8)],
        ),
    ];
    let items = ContextMenuItem::from_menu_nodes(&nodes);
    assert_eq!(items.len(), 3);
    assert_eq!(items[0].id, MenuId(1));
    assert!(matches!(&items[0].kind, ContextMenuItemKind::Item { label, enabled: false } if label == "Cut"));
    assert!(matches!(items[1].kind, ContextMenuItemKind::Separator));
    match &items[2].kind {
        ContextMenuItemKind::Submenu { label, children } => {
            assert_eq!(label, "More");
            assert_eq!(children.len(), 1);
            assert_eq!(children[0].id, MenuId(4));
            assert!(matches!(&children[0].kind, ContextMenuItemKind::CheckItem { enabled: true, checked: true, .. }));
        }
        _ => panic!("not a submenu"),
    }
    assert_eq!(menu_nodes_to_items(&nodes).len(), 3);
    let made = ContextMenuItem::check_item(MenuId(9), "x".to_string(), false, true);
    assert!(matches!(made.kind, ContextMenuItemKind::CheckItem { enabled: false, checked: true, .. }));
    assert!(matches!(ContextMenuItem::separator(MenuId(8)).kind, ContextMenuItemKind::Separator));
    assert!(matches!(ContextMenuItem::item(MenuId(7), "i".to_string(), true).kind, ContextMenuItemKind::Item { enabled: true, .. }));
    assert!(matches!(ContextMenuItem::submenu(MenuId(6), "s".to_string(), vec![]).kind, ContextMenuItemKind::Submenu { .. }));
}

#[test]
fn both_context_menu_conversions_agree() {
    let nodes: Vec<MenuNode<u8>> = vec![
        MenuNode::item_with_id(MenuId::from_u64(1), "Open".to_string(), 1),
        MenuNode::separator_with_id(MenuId::from_u64(2)),
        MenuNode::submenu_with_id(
            MenuId::from_u64(3),
            "More".to_string(),
            vec![MenuNode::check_item_with_id(MenuId::from_u64(4), "Wrap".to_string(), true, 2)],
        ),
    ];
    let a = ContextMenuItem::from_menu_nodes(&nodes);
    let b = menu_nodes_to_items(&nodes);
    assert_eq!(format!("{:?}", a), format!("{:?}", b));
}
