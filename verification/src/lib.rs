//! Core, platform-independent logic of the Icy UI toolkit: events, alignment,
//! layout direction, drag and drop, menus, the widget shell, focus and
//! accessibility navigation, and the platform drag-and-drop rules.
use vstd::prelude::*;

pub mod accessibility;
pub mod alignment;
pub mod clipboard;
pub mod dnd;
pub mod event;
pub mod input_method;
pub mod keyboard;
pub mod layout_direction;
pub mod macos;
pub mod menu;
pub mod runtime;
pub mod shell;
pub mod text;
pub mod theme;
pub mod widget;
pub mod window;
pub mod windows;
pub mod winit;

verus! {
} // verus!
