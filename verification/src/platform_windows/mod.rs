//! Windows: the registry, the shell and WinRT.

pub mod appearance;
pub mod detection;
pub mod icon_image;
pub mod menu_table;
pub mod notification;
pub mod tray;
pub mod wakelock;
pub mod wallpaper;
