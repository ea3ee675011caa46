use icy_ui::accessibility::{derived_node_id, node_id_from_widget_id, NodeId, TextSelectionTarget};
use icy_ui::widget::operation::accessibility::{
    collect, find_a11y_node_at_position, find_focused_node, focus_next_a11y_node,
    focus_previous_a11y_node, focus_widget_by_node_id, ScrollTranslations, TreePath,
};
use icy_ui::widget::operation::focusable::{FocusState, FocusTier};
use icy_ui::widget::Id;

#[test]
fn path_based_ids_depend_on_position() {
    let mut path = TreePath::new();
    let first = path.path_based_id();
    path.count_sibling();
    let second = path.path_based_id();
    assert_ne!(first, second);
    path.enter_container();
    let inner = path.path_based_id();
    path.leave_container();
    assert_ne!(inner, path.path_based_id());
    assert!(first.0 >= 0x2000_0000_0000_0000);
    assert_eq!(path.node_id_for(Some(Id(3))), node_id_from_widget_id(&Id(3)));
    let mut again = TreePath::new();
    assert_eq!(again.path_based_id(), first);
    again.count_sibling();
    assert_eq!(again.path_based_id(), second);
}

fn nav_ids() -> (NodeId, NodeId, NodeId) {
    (node_id_from_widget_id(&Id(1)), node_id_from_widget_id(&Id(2)), node_id_from_widget_id(&Id(3)))
}

#[test]
fn navigation_cycles_through_focusable_nodes() {
    let (a, b, c) = nav_ids();
    let visit = |mut op: icy_ui::widget::operation::accessibility::CollectAndNavigate| {
        op.accessibility(Some(Id(1)), true);
        op.container();
        op.accessibility(Some(Id(2)), true);
        op.accessibility(Some(Id(9)), false);
        op.leave_container();
        op.accessibility(Some(Id(3)), true);
        op.finish()
    };
    let n = visit(focus_next_a11y_node(Some(a)));
    assert_eq!(n.total_nodes, 3);
    assert_eq!(n.new_focus, Some(b));
    assert_eq!(visit(focus_next_a11y_node(Some(c))).new_focus, Some(a));
    assert_eq!(visit(focus_next_a11y_node(None)).new_focus, Some(a));
    assert_eq!(visit(focus_previous_a11y_node(Some(a))).new_focus, Some(c));
    assert_eq!(visit(focus_previous_a11y_node(None)).new_focus, Some(c));
    let empty = focus_next_a11y_node(Some(a)).finish();
    assert_eq!(empty.total_nodes, 0);
    assert_eq!(empty.new_focus, None);
}

#[test]
fn finding_the_focused_node() {
    let mut op = find_focused_node();
    assert!(op.traverse());
    op.accessibility(Some(Id(5)));
    op.focusable(Some(Id(5)), &FocusState::new(Some(Id(5)), false, FocusTier::Control));
    op.accessibility(None);
    op.focusable(None, &FocusState::new(None, true, FocusTier::Text));
    assert!(!op.traverse());
    let found = op.finish().expect("focused");
    let mut path = TreePath::new();
    path.count_sibling();
    assert_eq!(found, path.path_based_id());
    let mut none = find_focused_node();
    none.container();
    none.leave_container();
    assert_eq!(none.finish(), None);
}

#[test]
fn finding_the_node_at_a_position() {
    let mut op = find_a11y_node_at_position();
    op.accessibility(Some(Id(1)), true, true);
    op.container();
    op.accessibility(Some(Id(2)), true, true);
    op.accessibility(Some(Id(3)), false, true);
    op.leave_container();
    assert_eq!(op.finish(), Some(node_id_from_widget_id(&Id(2))));
}

#[test]
fn focusing_a_widget_by_node() {
    let target = node_id_from_widget_id(&Id(2));
    let mut op = focus_widget_by_node_id(target);
    let mut w1 = FocusState::new(Some(Id(1)), true, FocusTier::Control);
    let mut w2 = FocusState::new(Some(Id(2)), false, FocusTier::Control);
    op.accessibility(Some(Id(1)));
    op.focusable(Some(Id(1)), &mut w1);
    op.container();
    op.accessibility(Some(Id(2)));
    op.focusable(Some(Id(2)), &mut w2);
    op.leave_container();
    assert!(!w1.focused);
    assert!(w2.focused);
}

#[test]
fn collecting_the_tree() {
    let mut op = collect();
    let parent = op.accessibility(Some(Id(1)), vec![], 2, TextSelectionTarget::ExtraChild(1));
    assert_eq!(parent.node_id, node_id_from_widget_id(&Id(1)));
    assert_eq!(
        parent.extra_child_ids,
        vec![derived_node_id(parent.node_id, 0), derived_node_id(parent.node_id, 1)]
    );
    assert_eq!(parent.selection_node, parent.extra_child_ids[1]);
    assert_eq!(parent.children, parent.extra_child_ids);
    op.container();
    let child = op.accessibility(None, vec![], 0, TextSelectionTarget::ThisNode);
    assert_eq!(child.selection_node, child.node_id);
    op.leave_container();
    let owner = op.accessibility(Some(Id(7)), vec![child.node_id], 0, TextSelectionTarget::ExtraChild(4));
    assert_eq!(owner.selection_node, owner.node_id);
    let tree = op.finish();
    assert_eq!(tree.nodes.len(), 5);
    assert_eq!(tree.top_level_ids, vec![parent.node_id, owner.node_id]);
    assert_eq!(tree.widgets.get(&parent.node_id.0), Some(&Id(1)));
    assert_eq!(tree.widgets.get(&owner.node_id.0), Some(&Id(7)));
    assert_eq!(tree.widgets.len(), 2);
}

#[test]
fn scroll_translations_apply_to_their_content_only() {
    let mut t: ScrollTranslations<(i32, i32)> = ScrollTranslations::new();
    assert_eq!(t.current(), None);
    t.scrollable((0, -10));
    let outer = t.begin_traverse();
    assert_eq!(outer, 1);
    assert_eq!(t.current(), Some(&(0, -10)));
    t.scrollable((0, -25));
    let inner = t.begin_traverse();
    assert_eq!(t.current(), Some(&(0, -25)));
    t.end_traverse(inner);
    assert_eq!(t.current(), Some(&(0, -10)));
    assert_eq!(t.begin_traverse(), 0);
    t.end_traverse(0);
    assert_eq!(t.current(), Some(&(0, -10)));
    t.end_traverse(outer);
    assert_eq!(t.current(), None);
    t.end_traverse(3);
    assert_eq!(t.current(), None);
}

#[test]
fn navigation_wraps_modulo_the_node_count() {
    let mut nav = focus_next_a11y_node(Some(node_id_from_widget_id(&Id(3))));
    nav.accessibility(Some(Id(1)), true);
    nav.accessibility(Some(Id(2)), false);
    nav.accessibility(Some(Id(3)), true);
    let r = nav.finish();
    assert_eq!(r.total_nodes, 2);
    assert_eq!(r.new_focus, Some(node_id_from_widget_id(&Id(1))));
    let mut nav = focus_previous_a11y_node(Some(node_id_from_widget_id(&Id(1))));
    nav.accessibility(Some(Id(1)), true);
    nav.accessibility(Some(Id(3)), true);
    assert_eq!(nav.finish().new_focus, Some(node_id_from_widget_id(&Id(3))));
}
