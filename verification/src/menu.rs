//! Application menu model.
//!
//! A platform-agnostic representation of an application's main menu and of
//! context menus. Backends can render it as a native menu bar (e.g. macOS) or
//! as an in-window widget menu (e.g. Windows/Linux).
use vstd::prelude::*;

use crate::keyboard;
use crate::window;
#[allow(unused_imports)]
use vstd::string::StringSliceAdditionalSpecFns;

verus! {

/// Platform-specific menu item role.
///
/// Items with a role may be relocated by the platform backend.
/// For example, macOS moves `Quit`, `About`, and `Preferences` items
/// into the application menu.
#[derive(Debug, Clone, Copy, PartialEq, Eq, Hash, Default, Structural)]
#[non_exhaustive]
pub enum MenuRole {
    /// No special handling; item stays where defined.
    #[default]
    NoRole,
    /// "About <AppName>" – macOS: app menu; others: as defined.
    About,
    /// "Settings…" / "Preferences…" – macOS: app menu (⌘,); others: as defined.
    Preferences,
    /// "Quit <AppName>" – macOS: app menu (⌘Q); others: as defined.
    Quit,
    /// Application-specific item to be relocated to the app menu on macOS.
    ApplicationSpecific,
}

/// Stable identifier for a menu item.
///
/// This is a 64-bit hash of a string, of a source location, or of a parent
/// identifier and a value. Apps are responsible for keeping these stable
/// across updates so platform backends can patch native menus efficiently.
#[derive(Debug, Clone, Copy, PartialEq, Eq, PartialOrd, Ord, Hash, Structural)]
pub struct MenuId(pub u64);

// ============================================================================
// FNV-1a Hash
// ============================================================================

/// FNV-1a 64-bit offset basis.
pub const FNV1A_OFFSET: u64 = 0xcbf29ce484222325;

/// The byte (`:`) between a path and its line number in a location hash.
pub const LOCATION_SEPARATOR: u8 = 0x3a;

/// FNV-1a 64-bit prime.
pub const FNV1A_PRIME: u64 = 0x00000100000001B3;

/// One FNV-1a step: mix a byte into the hash.
pub open spec fn fnv1a_step(hash: u64, byte: u8) -> u64 {
    (hash ^ (byte as u64)).wrapping_mul(FNV1A_PRIME)
}

/// FNV-1a over `bytes`, starting from `hash`.
pub open spec fn fnv1a_fold(hash: u64, bytes: Seq<u8>) -> u64
    decreases bytes.len(),
{
    if bytes.len() == 0 {
        hash
    } else {
        fnv1a_step(fnv1a_fold(hash, bytes.drop_last()), bytes.last())
    }
}

/// The FNV-1a hash of `bytes`.
pub open spec fn fnv1a(bytes: Seq<u8>) -> u64 {
    fnv1a_fold(FNV1A_OFFSET, bytes)
}

/// The big-endian bytes of a `u32`.
pub open spec fn be_bytes_u32(v: u32) -> Seq<u8> {
    seq![(v >> 24u32) as u8, ((v >> 16u32) & 0xff) as u8, ((v >> 8u32) & 0xff) as u8, (v & 0xff) as u8]
}

/// The big-endian bytes of a `u64`.
pub open spec fn be_bytes_u64(v: u64) -> Seq<u8> {
    Seq::new(8, |i: int| ((v >> ((56 - 8 * i) as u64)) & 0xff) as u8)
}

/// Hashing a concatenation continues from the hash of the first part.
pub proof fn lemma_fnv1a_concat(hash: u64, a: Seq<u8>, b: Seq<u8>)
    ensures
        fnv1a_fold(hash, a + b) == fnv1a_fold(fnv1a_fold(hash, a), b),
    decreases b.len(),
{
    if b.len() > 0 {
        assert((a + b).drop_last() =~= a + b.drop_last());
        lemma_fnv1a_concat(hash, a, b.drop_last());
    }
}

fn fnv1a_bytes(hash: u64, bytes: &[u8]) -> (r: u64)
    ensures
        r == fnv1a_fold(hash, bytes@),
{
    let mut h = hash;
    let mut i: usize = 0;
    while i < bytes.len()
        invariant
            i <= bytes@.len(),
            h == fnv1a_fold(hash, bytes@.take(i as int)),
        decreases bytes@.len() - i,
    {
        assert(bytes@.take(i + 1).drop_last() =~= bytes@.take(i as int));
        h = h ^ (bytes[i] as u64);
        h = h.wrapping_mul(FNV1A_PRIME);
        i = i + 1;
    }
    assert(bytes@.take(bytes@.len() as int) =~= bytes@);
    h
}

pub(crate) fn be_u32(v: u32) -> (r: [u8; 4])
    ensures
        r@ == be_bytes_u32(v),
{
    let r = [(v >> 24u32) as u8, ((v >> 16u32) & 0xff) as u8, ((v >> 8u32) & 0xff) as u8, (v & 0xff) as u8];
    assert(r@ =~= be_bytes_u32(v));
    r
}

pub(crate) fn be_u64(v: u64) -> (r: [u8; 8])
    ensures
        r@ == be_bytes_u64(v),
{
    let r = [
        (v >> 56u64) as u8,
        ((v >> 48u64) & 0xff) as u8,
        ((v >> 40u64) & 0xff) as u8,
        ((v >> 32u64) & 0xff) as u8,
        ((v >> 24u64) & 0xff) as u8,
        ((v >> 16u64) & 0xff) as u8,
        ((v >> 8u64) & 0xff) as u8,
        (v & 0xff) as u8,
    ];
    assert((v >> 56u64) as u8 == ((v >> 56u64) & 0xff) as u8) by (bit_vector);
    assert((v & 0xff) as u8 == ((v >> 0u64) & 0xff) as u8) by (bit_vector);
    assert(r@ =~= be_bytes_u64(v));
    r
}

/// Computes the FNV-1a hash of a string's UTF-8 bytes.
pub fn fnv1a_hash_str(s: &str) -> (r: u64)
    ensures
        r == fnv1a(s.spec_bytes()),
{
    fnv1a_bytes(FNV1A_OFFSET, s.as_bytes())
}

/// Computes the FNV-1a hash of a file path and a line number: the path's
/// bytes, a `:` separator, then the line's four big-endian bytes.
pub fn fnv1a_hash_location(file: &str, line: u32) -> (r: u64)
    ensures
        r == fnv1a(file.spec_bytes() + seq![LOCATION_SEPARATOR] + be_bytes_u32(line)),
{
    let mut hash = fnv1a_bytes(FNV1A_OFFSET, file.as_bytes());
    hash = hash ^ (LOCATION_SEPARATOR as u64);
    hash = hash.wrapping_mul(FNV1A_PRIME);
    let line_bytes = be_u32(line);
    let r = fnv1a_bytes(hash, &line_bytes);
    proof {
        let fb = file.spec_bytes();
        assert((fb + seq![LOCATION_SEPARATOR]).drop_last() =~= fb);
        lemma_fnv1a_concat(FNV1A_OFFSET, fb + seq![LOCATION_SEPARATOR], be_bytes_u32(line));
    }
    r
}

/// Computes the FNV-1a hash of two `u64` values, each as eight big-endian bytes.
pub fn fnv1a_hash_u64_pair(a: u64, b: u64) -> (r: u64)
    ensures
        r == fnv1a(be_bytes_u64(a) + be_bytes_u64(b)),
{
    let a_bytes = be_u64(a);
    let hash = fnv1a_bytes(FNV1A_OFFSET, &a_bytes);
    let b_bytes = be_u64(b);
    let r = fnv1a_bytes(hash, &b_bytes);
    proof {
        lemma_fnv1a_concat(FNV1A_OFFSET, be_bytes_u64(a), be_bytes_u64(b));
    }
    r
}

impl MenuId {
    /// Creates a new [`MenuId`] from a raw u64 value.
    pub fn from_u64(id: u64) -> (r: Self)
        ensures
            r.0 == id,
    {
        MenuId(id)
    }

    /// Returns the raw u64 value.
    pub fn as_u64(self) -> (r: u64)
        ensures
            r == self.0,
    {
        self.0
    }

    /// Creates a [`MenuId`] by hashing a string.
    pub fn from_str(s: &str) -> (r: Self)
        ensures
            r.0 == fnv1a(s.spec_bytes()),
    {
        MenuId(fnv1a_hash_str(s))
    }

    /// Derives a deterministic child [`MenuId`] from this ID and a numeric value.
    ///
    /// Useful for dynamic menus (e.g. window lists) where you want stable IDs
    /// without relying on source location.
    pub fn child(self, value: u64) -> (r: Self)
        ensures
            r.0 == fnv1a(be_bytes_u64(self.0) + be_bytes_u64(value)),
    {
        MenuId(fnv1a_hash_u64_pair(self.0, value))
    }

    /// Derives a deterministic child [`MenuId`] from this ID and a string.
    pub fn child_str(self, value: &str) -> (r: Self)
        ensures
            r.0 == fnv1a(be_bytes_u64(self.0) + be_bytes_u64(fnv1a(value.spec_bytes()))),
    {
        MenuId(fnv1a_hash_u64_pair(self.0, fnv1a_hash_str(value)))
    }

    /// Creates a [`MenuId`] from file and line number.
    pub fn from_location(file: &str, line: u32) -> (r: Self)
        ensures
            r.0 == fnv1a(file.spec_bytes() + seq![LOCATION_SEPARATOR] + be_bytes_u32(line)),
    {
        MenuId(fnv1a_hash_location(file, line))
    }
}

/// A child identifier derived from a string is the child derived from the
/// string's own identifier.
pub proof fn law_child_str_is_child_of_str_id(parent: MenuId, value: Seq<u8>)
    ensures
        fnv1a(be_bytes_u64(parent.0) + be_bytes_u64(fnv1a(value))) == fnv1a(
            be_bytes_u64(parent.0) + be_bytes_u64(MenuId(fnv1a(value)).0),
        ),
{
}

// ============================================================================
// Shortcuts
// ============================================================================

/// A keyboard shortcut displayed in menus and/or bound by platform backends.
#[derive(Debug, Clone, PartialEq, Eq, Hash)]
pub struct MenuShortcut {
    /// Modifier keys.
    pub modifiers: keyboard::Modifiers,
    /// Trigger key.
    pub key: keyboard::Key,
}

impl MenuShortcut {
    /// Creates a new [`MenuShortcut`].
    pub fn new(modifiers: keyboard::Modifiers, key: keyboard::Key) -> (r: Self)
        ensures
            r.modifiers == modifiers,
            r.key == key,
    {
        MenuShortcut { modifiers, key }
    }

    /// Creates a shortcut with Command/Ctrl + the given key.
    pub fn cmd(key: keyboard::Key) -> (r: Self)
        ensures
            r.modifiers.bits == keyboard::CTRL_BIT,
            r.key == key,
    {
        MenuShortcut { modifiers: keyboard::Modifiers::COMMAND(), key }
    }

    /// Creates a shortcut with Command/Ctrl + Shift + the given key.
    pub fn cmd_shift(key: keyboard::Key) -> (r: Self)
        ensures
            r.modifiers.bits == keyboard::CTRL_BIT | keyboard::SHIFT_BIT,
            r.key == key,
    {
        MenuShortcut {
            modifiers: keyboard::Modifiers::COMMAND().union(keyboard::Modifiers::SHIFT()),
            key,
        }
    }

    /// Creates a shortcut with Command/Ctrl + Alt + the given key.
    pub fn cmd_alt(key: keyboard::Key) -> (r: Self)
        ensures
            r.modifiers.bits == keyboard::CTRL_BIT | keyboard::ALT_BIT,
            r.key == key,
    {
        MenuShortcut {
            modifiers: keyboard::Modifiers::COMMAND().union(keyboard::Modifiers::ALT()),
            key,
        }
    }

    /// Creates a shortcut with Shift + the given key.
    pub fn shift(key: keyboard::Key) -> (r: Self)
        ensures
            r.modifiers.bits == keyboard::SHIFT_BIT,
            r.key == key,
    {
        MenuShortcut { modifiers: keyboard::Modifiers::SHIFT(), key }
    }

    /// Creates a shortcut with Alt + the given key.
    pub fn alt(key: keyboard::Key) -> (r: Self)
        ensures
            r.modifiers.bits == keyboard::ALT_BIT,
            r.key == key,
    {
        MenuShortcut { modifiers: keyboard::Modifiers::ALT(), key }
    }

    /// Creates a shortcut with no modifier keys.
    pub fn key_only(key: keyboard::Key) -> (r: Self)
        ensures
            r.modifiers.bits == 0,
            r.key == key,
    {
        MenuShortcut { modifiers: keyboard::Modifiers::empty(), key }
    }
}

// ============================================================================
// Menu context
// ============================================================================

/// Current window information given to the program when it builds its
/// application menu.
#[derive(Debug, PartialEq, Eq)]
pub struct WindowInfo {
    /// Window identifier.
    pub id: window::Id,
    /// Current window title.
    pub title: String,
    /// Whether the window is currently focused.
    pub focused: bool,
    /// Whether the window is currently minimized.
    pub minimized: bool,
}

/// Context given to the program when it builds its application menu.
#[derive(Debug)]
pub struct MenuContext {
    /// Snapshot of currently known windows.
    pub windows: Vec<WindowInfo>,
}

// ============================================================================
// Menu model
// ============================================================================

/// A full application menu model.
#[derive(Debug)]
pub struct AppMenu<Message> {
    /// Top-level menu roots (e.g. File/Edit/View/Window/Help).
    pub roots: Vec<MenuNode<Message>>,
}

impl<Message> AppMenu<Message> {
    /// Creates a new [`AppMenu`].
    pub fn new(roots: Vec<MenuNode<Message>>) -> (r: Self)
        ensures
            r.roots == roots,
    {
        AppMenu { roots }
    }
}

/// A menu node.
#[derive(Debug)]
pub struct MenuNode<Message> {
    /// Stable identifier of this node.
    pub id: MenuId,
    /// Platform-specific role for this node.
    pub role: MenuRole,
    /// Node contents.
    pub kind: MenuKind<Message>,
}

/// The concrete type of a menu node.
#[derive(Debug)]
pub enum MenuKind<Message> {
    /// A clickable menu item.
    Item {
        /// Text label.
        label: String,
        /// Whether the item is enabled.
        enabled: bool,
        /// Optional keyboard shortcut.
        shortcut: Option<MenuShortcut>,
        /// Message produced when the item is activated.
        on_activate: Message,
    },
    /// A clickable menu item with a checkmark.
    CheckItem {
        /// Text label.
        label: String,
        /// Whether the item is enabled.
        enabled: bool,
        /// Whether the item is checked.
        checked: bool,
        /// Optional keyboard shortcut.
        shortcut: Option<MenuShortcut>,
        /// Message produced when the item is activated.
        on_activate: Message,
    },
    /// A submenu.
    Submenu {
        /// Text label.
        label: String,
        /// Whether the submenu can be opened.
        enabled: bool,
        /// Child menu nodes.
        children: Vec<MenuNode<Message>>,
    },
    /// A separator/divider.
    Separator,
}

/// The node is a submenu all of whose children are either relocated by a
/// role or are themselves empty submenus.
pub open spec fn spec_is_empty_submenu<Message>(node: MenuNode<Message>) -> bool
    decreases node,
{
    match node.kind {
        MenuKind::Submenu { children, .. } => forall|i: int|
            0 <= i < children@.len() ==> (#[trigger] children@[i]).role != MenuRole::NoRole
                || spec_is_empty_submenu(children@[i]),
        _ => false,
    }
}

/// A submenu is empty exactly when every child is relocated by a role or is
/// itself an empty submenu: a single child with no role that is not an
/// empty submenu keeps it from being empty, however many others are
/// relocated. A submenu without children is empty; items, check items and
/// separators are never empty submenus.
pub proof fn law_empty_submenu<Message>(node: MenuNode<Message>)
    ensures
        !(node.kind is Submenu) ==> !spec_is_empty_submenu(node),
        node.kind is Submenu ==> (spec_is_empty_submenu(node) <==> forall|i: int|
            0 <= i < node.kind->Submenu_children@.len() ==> (
            #[trigger] node.kind->Submenu_children@[i]).role != MenuRole::NoRole
                || spec_is_empty_submenu(node.kind->Submenu_children@[i])),
        node.kind is Submenu && (exists|i: int|
            0 <= i < node.kind->Submenu_children@.len() && (
            #[trigger] node.kind->Submenu_children@[i]).role == MenuRole::NoRole
                && !spec_is_empty_submenu(node.kind->Submenu_children@[i]))
            ==> !spec_is_empty_submenu(node),
        node.kind is Submenu && node.kind->Submenu_children@.len() == 0 ==> spec_is_empty_submenu(
            node,
        ),
{
}

impl<Message> MenuNode<Message> {
    /// Creates a new [`MenuNode`] with the given ID and no role.
    pub fn new_with_id(id: MenuId, kind: MenuKind<Message>) -> (r: Self)
        ensures
            r.id == id,
            r.role == MenuRole::NoRole,
            r.kind == kind,
    {
        MenuNode { id, role: MenuRole::NoRole, kind }
    }

    /// Sets the role of this node.
    pub fn with_role(self, role: MenuRole) -> (r: Self)
        ensures
            r.id == self.id,
            r.role == role,
            r.kind == self.kind,
    {
        let mut node = self;
        node.role = role;
        node
    }

    /// Creates a separator [`MenuNode`] with the given ID.
    pub fn separator_with_id(id: MenuId) -> (r: Self)
        ensures
            r.id == id,
            r.role == MenuRole::NoRole,
            r.kind == MenuKind::<Message>::Separator,
    {
        Self::new_with_id(id, MenuKind::Separator)
    }

    /// Creates an enabled submenu [`MenuNode`] with the given ID.
    pub fn submenu_with_id(id: MenuId, label: String, children: Vec<MenuNode<Message>>) -> (r: Self)
        ensures
            r.id == id,
            r.role == MenuRole::NoRole,
            r.kind == (MenuKind::Submenu { label, enabled: true, children }),
    {
        Self::new_with_id(id, MenuKind::Submenu { label, enabled: true, children })
    }

    /// Creates an enabled clickable menu item [`MenuNode`] with the given ID
    /// and no shortcut.
    pub fn item_with_id(id: MenuId, label: String, on_activate: Message) -> (r: Self)
        ensures
            r.id == id,
            r.role == MenuRole::NoRole,
            r.kind == (MenuKind::Item { label, enabled: true, shortcut: None, on_activate }),
    {
        Self::new_with_id(id, MenuKind::Item { label, enabled: true, shortcut: None, on_activate })
    }

    /// Creates an enabled checkbox menu item [`MenuNode`] with the given ID
    /// and no shortcut.
    pub fn check_item_with_id(id: MenuId, label: String, checked: bool, on_activate: Message) -> (r:
        Self)
        ensures
            r.id == id,
            r.role == MenuRole::NoRole,
            r.kind == (MenuKind::CheckItem {
                label,
                enabled: true,
                checked,
                shortcut: None,
                on_activate,
            }),
    {
        Self::new_with_id(
            id,
            MenuKind::CheckItem { label, enabled: true, checked, shortcut: None, on_activate },
        )
    }

    /// Creates a "Quit" menu item with [`MenuRole::Quit`], identified by the
    /// hash of `app.quit`.
    pub fn quit(on_activate: Message) -> (r: Self)
        ensures
            r.id.0 == fnv1a("app.quit".spec_bytes()),
            r.role == MenuRole::Quit,
            r.kind matches MenuKind::Item { label, enabled, shortcut, on_activate: m } && label@
                == "Quit"@ && enabled && shortcut is None && m == on_activate,
    {
        MenuNode {
            id: MenuId::from_str("app.quit"),
            role: MenuRole::Quit,
            kind: MenuKind::Item {
                label: String::from_str("Quit"),
                enabled: true,
                shortcut: None,
                on_activate,
            },
        }
    }

    /// Creates an "About" menu item with [`MenuRole::About`], identified by
    /// the hash of `app.about`.
    pub fn about(label: String, on_activate: Message) -> (r: Self)
        ensures
            r.id.0 == fnv1a("app.about".spec_bytes()),
            r.role == MenuRole::About,
            r.kind == (MenuKind::Item { label, enabled: true, shortcut: None, on_activate }),
    {
        MenuNode {
            id: MenuId::from_str("app.about"),
            role: MenuRole::About,
            kind: MenuKind::Item { label, enabled: true, shortcut: None, on_activate },
        }
    }

    /// Creates a "Preferences" / "Settings" menu item with
    /// [`MenuRole::Preferences`], identified by the hash of `app.preferences`.
    pub fn preferences(label: String, on_activate: Message) -> (r: Self)
        ensures
            r.id.0 == fnv1a("app.preferences".spec_bytes()),
            r.role == MenuRole::Preferences,
            r.kind == (MenuKind::Item { label, enabled: true, shortcut: None, on_activate }),
    {
        MenuNode {
            id: MenuId::from_str("app.preferences"),
            role: MenuRole::Preferences,
            kind: MenuKind::Item { label, enabled: true, shortcut: None, on_activate },
        }
    }

    /// Returns `true` if this node is a submenu with no visible children:
    /// every child is relocated by its role or is itself an empty submenu.
    pub fn is_empty_submenu(&self) -> (r: bool)
        ensures
            r == spec_is_empty_submenu(*self),
        decreases self,
    {
        match &self.kind {
            MenuKind::Submenu { children, .. } => {
                let mut i: usize = 0;
                while i < children.len()
                    invariant
                        i <= children@.len(),
                        *self matches MenuNode { kind: MenuKind::Submenu { children: c, .. }, .. } && c
                            == children,
                        forall|j: int|
                            0 <= j < i ==> (#[trigger] children@[j]).role != MenuRole::NoRole
                                || spec_is_empty_submenu(children@[j]),
                    decreases children@.len() - i,
                {
                    let child = &children[i];
                    proof {
                        assert(decreases_to!(*self => children@[i as int]));
                    }
                    if !(child.role != MenuRole::NoRole || child.is_empty_submenu()) {
                        return false;
                    }
                    i = i + 1;
                }
                true
            },
            _ => false,
        }
    }

    /// Sets a keyboard shortcut for this menu item; only `Item` and
    /// `CheckItem` nodes take it.
    pub fn shortcut(self, shortcut: MenuShortcut) -> (r: Self)
        ensures
            r.id == self.id,
            r.role == self.role,
            r.kind == match self.kind {
                MenuKind::Item { label, enabled, on_activate, .. } => MenuKind::Item {
                    label,
                    enabled,
                    shortcut: Some(shortcut),
                    on_activate,
                },
                MenuKind::CheckItem { label, enabled, checked, on_activate, .. } => MenuKind::CheckItem {
                    label,
                    enabled,
                    checked,
                    shortcut: Some(shortcut),
                    on_activate,
                },
                other => other,
            },
    {
        let MenuNode { id, role, kind } = self;
        let kind = match kind {
            MenuKind::Item { label, enabled, on_activate, .. } => MenuKind::Item {
                label,
                enabled,
                shortcut: Some(shortcut),
                on_activate,
            },
            MenuKind::CheckItem { label, enabled, checked, on_activate, .. } => MenuKind::CheckItem {
                label,
                enabled,
                checked,
                shortcut: Some(shortcut),
                on_activate,
            },
            other => other,
        };
        MenuNode { id, role, kind }
    }

    /// Sets whether this menu item is enabled; only `Item`, `CheckItem`, and
    /// `Submenu` nodes take it.
    pub fn enabled(self, enabled_val: bool) -> (r: Self)
        ensures
            r.id == self.id,
            r.role == self.role,
            r.kind == match self.kind {
                MenuKind::Item { label, shortcut, on_activate, .. } => MenuKind::Item {
                    label,
                    enabled: enabled_val,
                    shortcut,
                    on_activate,
                },
                MenuKind::CheckItem { label, checked, shortcut, on_activate, .. } => MenuKind::CheckItem {
                    label,
                    enabled: enabled_val,
                    checked,
                    shortcut,
                    on_activate,
                },
                MenuKind::Submenu { label, children, .. } => MenuKind::Submenu {
                    label,
                    enabled: enabled_val,
                    children,
                },
                MenuKind::Separator => MenuKind::Separator,
            },
    {
        let MenuNode { id, role, kind } = self;
        let kind = match kind {
            MenuKind::Item { label, shortcut, on_activate, .. } => MenuKind::Item {
                label,
                enabled: enabled_val,
                shortcut,
                on_activate,
            },
            MenuKind::CheckItem { label, checked, shortcut, on_activate, .. } => MenuKind::CheckItem {
                label,
                enabled: enabled_val,
                checked,
                shortcut,
                on_activate,
            },
            MenuKind::Submenu { label, children, .. } => MenuKind::Submenu {
                label,
                enabled: enabled_val,
                children,
            },
            MenuKind::Separator => MenuKind::Separator,
        };
        MenuNode { id, role, kind }
    }
}

// ============================================================================
// Context menu items
// ============================================================================

/// A simplified menu item for native context menus.
///
/// Unlike [`MenuNode`], this type has no `Message` parameter and no
/// callbacks: when an item is selected, its [`MenuId`] is returned and the
/// widget that opened the menu handles the callback.
#[derive(Debug)]
pub struct ContextMenuItem {
    /// Unique identifier for this menu item.
    pub id: MenuId,
    /// The kind of menu item.
    pub kind: ContextMenuItemKind,
}

/// The kind of a context menu item.
#[derive(Debug)]
pub enum ContextMenuItemKind {
    /// A regular menu item that can be activated.
    Item {
        /// The label text.
        label: String,
        /// Whether the item is enabled.
        enabled: bool,
    },
    /// A separator line.
    Separator,
    /// A submenu with children.
    Submenu {
        /// The label text.
        label: String,
        /// The child items.
        children: Vec<ContextMenuItem>,
    },
    /// A checkable menu item.
    CheckItem {
        /// The label text.
        label: String,
        /// Whether the item is enabled.
        enabled: bool,
        /// Whether the item is currently checked.
        checked: bool,
    },
}

/// `item` is the context-menu form of `node`: same identifier, same kind,
/// label, enabled and checked state, and, for a submenu, children that are
/// in turn the forms of the node's children, in order. Roles, shortcuts and
/// messages are dropped.
pub open spec fn mirrors_node<Message>(item: ContextMenuItem, node: MenuNode<Message>) -> bool
    decreases node,
{
    &&& item.id == node.id
    &&& match node.kind {
        MenuKind::Item { label, enabled, .. } => item.kind matches ContextMenuItemKind::Item {
            label: l,
            enabled: e,
        } && l@ == label@ && e == enabled,
        MenuKind::CheckItem { label, enabled, checked, .. } => item.kind
            matches ContextMenuItemKind::CheckItem { label: l, enabled: e, checked: c } && l@
            == label@ && e == enabled && c == checked,
        MenuKind::Separator => item.kind is Separator,
        MenuKind::Submenu { label, children, .. } => item.kind matches ContextMenuItemKind::Submenu {
            label: l,
            children: c,
        } && l@ == label@ && c@.len() == children@.len() && forall|i: int|
            0 <= i < children@.len() ==> mirrors_node(#[trigger] c@[i], children@[i]),
    }
}

/// Every item of `items` is the context-menu form of the node at the same
/// position of `nodes`.
pub open spec fn mirrors_nodes<Message>(items: Seq<ContextMenuItem>, nodes: Seq<MenuNode<Message>>) -> bool {
    &&& items.len() == nodes.len()
    &&& forall|i: int| 0 <= i < nodes.len() ==> mirrors_node(#[trigger] items[i], nodes[i])
}

/// Two context menu items are alike: the same identifier and kind, labels
/// with the same text, the same enabled and checked state, and, for
/// submenus, children that are alike in turn, in order.
pub open spec fn same_item(a: ContextMenuItem, b: ContextMenuItem) -> bool
    decreases a,
{
    &&& a.id == b.id
    &&& match a.kind {
        ContextMenuItemKind::Item { label, enabled } => b.kind matches ContextMenuItemKind::Item {
            label: l,
            enabled: e,
        } && l@ == label@ && e == enabled,
        ContextMenuItemKind::CheckItem { label, enabled, checked } => b.kind
            matches ContextMenuItemKind::CheckItem { label: l, enabled: e, checked: c } && l@
            == label@ && e == enabled && c == checked,
        ContextMenuItemKind::Separator => b.kind is Separator,
        ContextMenuItemKind::Submenu { label, children } => b.kind
            matches ContextMenuItemKind::Submenu { label: l, children: c } && l@ == label@
            && c@.len() == children@.len() && forall|i: int|
            0 <= i < children@.len() ==> same_item(#[trigger] children@[i], c@[i]),
    }
}

/// The context-menu form of menu nodes is unique up to the text of labels:
/// two item lists that both mirror the same nodes (such as what
/// [`ContextMenuItem::from_menu_nodes`] and
/// `runtime::context_menu::menu_nodes_to_items` return for them) agree item
/// by item.
pub proof fn law_mirrored_items_agree<Message>(
    a: Seq<ContextMenuItem>,
    b: Seq<ContextMenuItem>,
    nodes: Seq<MenuNode<Message>>,
)
    requires
        mirrors_nodes(a, nodes),
        mirrors_nodes(b, nodes),
    ensures
        a.len() == b.len(),
        forall|i: int| 0 <= i < a.len() ==> same_item(#[trigger] a[i], b[i]),
{
    assert forall|i: int| 0 <= i < a.len() implies same_item(#[trigger] a[i], b[i]) by {
        lemma_mirrored_item_agrees(a[i], b[i], nodes[i]);
    }
}

proof fn lemma_mirrored_item_agrees<Message>(a: ContextMenuItem, b: ContextMenuItem, node: MenuNode<Message>)
    requires
        mirrors_node(a, node),
        mirrors_node(b, node),
    ensures
        same_item(a, b),
    decreases node,
{
    match node.kind {
        MenuKind::Submenu { label, children, .. } => {
            let ca = a.kind->Submenu_children;
            let cb = b.kind->Submenu_children;
            assert forall|i: int| 0 <= i < ca@.len() implies same_item(#[trigger] ca@[i], cb@[i]) by {
                lemma_mirrored_item_agrees(ca@[i], cb@[i], children@[i]);
            }
        },
        _ => {},
    }
}

impl ContextMenuItem {
    /// Creates a new regular menu item.
    pub fn item(id: MenuId, label: String, enabled: bool) -> (r: Self)
        ensures
            r.id == id,
            r.kind == (ContextMenuItemKind::Item { label, enabled }),
    {
        ContextMenuItem { id, kind: ContextMenuItemKind::Item { label, enabled } }
    }

    /// Creates a separator.
    pub fn separator(id: MenuId) -> (r: Self)
        ensures
            r.id == id,
            r.kind == ContextMenuItemKind::Separator,
    {
        ContextMenuItem { id, kind: ContextMenuItemKind::Separator }
    }

    /// Creates a submenu.
    pub fn submenu(id: MenuId, label: String, children: Vec<ContextMenuItem>) -> (r: Self)
        ensures
            r.id == id,
            r.kind == (ContextMenuItemKind::Submenu { label, children }),
    {
        ContextMenuItem { id, kind: ContextMenuItemKind::Submenu { label, children } }
    }

    /// Creates a checkable item.
    pub fn check_item(id: MenuId, label: String, enabled: bool, checked: bool) -> (r: Self)
        ensures
            r.id == id,
            r.kind == (ContextMenuItemKind::CheckItem { label, enabled, checked }),
    {
        ContextMenuItem { id, kind: ContextMenuItemKind::CheckItem { label, enabled, checked } }
    }

    /// Converts a slice of [`MenuNode`]s to a vector of [`ContextMenuItem`]s,
    /// keeping identifiers, labels, enabled and checked state and the submenu
    /// structure, and dropping the callbacks (which the widget handles).
    pub fn from_menu_nodes<Message>(nodes: &[MenuNode<Message>]) -> (r: Vec<ContextMenuItem>)
        ensures
            mirrors_nodes(r@, nodes@),
        decreases nodes@,
    {
        let mut out: Vec<ContextMenuItem> = Vec::new();
        let mut i: usize = 0;
        while i < nodes.len()
            invariant
                i <= nodes@.len(),
                out@.len() == i,
                forall|j: int| 0 <= j < i ==> mirrors_node(#[trigger] out@[j], nodes@[j]),
            decreases nodes@.len() - i,
        {
            let node = &nodes[i];
            let id = node.id;
            let item = match &node.kind {
                MenuKind::Item { label, enabled, .. } => ContextMenuItem::item(
                    id,
                    label.clone(),
                    *enabled,
                ),
                MenuKind::Separator => ContextMenuItem::separator(id),
                MenuKind::Submenu { label, children, .. } => {
                    proof {
                        assert(decreases_to!(nodes@ => nodes@[i as int]));
                        assert(decreases_to!(nodes@[i as int] => nodes@[i as int].kind));
                        assert(decreases_to!(nodes@[i as int].kind => *children));
                        assert(decreases_to!(*children => children@));
                    }
                    let kids = ContextMenuItem::from_menu_nodes(children.as_slice());
                    ContextMenuItem::submenu(id, label.clone(), kids)
                },
                MenuKind::CheckItem { label, enabled, checked, .. } => ContextMenuItem::check_item(
                    id,
                    label.clone(),
                    *enabled,
                    *checked,
                ),
            };
            out.push(item);
            i = i + 1;
        }
        out
    }
}

} // verus!
