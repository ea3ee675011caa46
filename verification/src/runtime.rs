//! What the runtime is asked to do: each request that a task carries to the
//! runtime is a plain value here, which the application's runtime performs.
pub mod accessibility;
pub mod context_menu;
pub mod dnd;
pub mod widget;
