//! Native context menu support: menus sent to the platform as plain items.
use vstd::prelude::*;

use crate::menu::{mirrors_nodes, ContextMenuItem, MenuNode};

verus! {

/// Converts menu nodes to context menu items, keeping identifiers, labels,
/// enabled and checked state and the submenu structure, and dropping the
/// callbacks (which the widget handles).
pub fn menu_nodes_to_items<Message>(nodes: &[MenuNode<Message>]) -> (r: Vec<ContextMenuItem>)
    ensures
        mirrors_nodes(r@, nodes@),
{
    ContextMenuItem::from_menu_nodes(nodes)
}

} // verus!
