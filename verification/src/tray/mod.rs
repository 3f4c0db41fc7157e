//! Platform-independent core of the system tray: tooltips, menus, icons and the
//! state of a live icon.

pub mod event;
pub mod icon;
pub mod item;
pub mod menu;
pub mod menu_laws;
pub mod pixels;
pub mod source;
pub mod store;
pub mod tooltip;
