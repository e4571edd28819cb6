//! The terminal interface: keys and keybinds, the state of its widgets,
//! and the key handler that drives it.

/// keys and key events
pub mod keys;

/// numbers that wrap around within a range
pub mod ranged;

/// the keybinds of every screen
pub mod keybinds;

/// the drawing types that the widgets carry
pub mod render_types;

/// drop down menus
pub mod dropdown;

/// popups that offer a choice
pub mod choice_popup;

/// the styles of the interface
pub mod style;

/// the state of the interface
pub mod app;

/// what the keys do
pub mod key_handler;

/// what the screen shows
pub mod screen;

/// laying out the fields of record widgets
pub mod widget_layout;
