//! The state behind the window's widgets, and what each event does to it.
//! Drawing is left to whoever shows the window.

pub mod anchor_input;
pub mod anchor_item;
pub mod cfg_panel;
pub mod window;
