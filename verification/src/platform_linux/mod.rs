//! Linux desktops: portals, D-Bus services and command-line tools.

pub mod appearance;
pub mod bus;
pub mod dbusmenu;
pub mod dbusmenu_export;
pub mod detection;
pub mod notification;
pub mod tray;
pub mod variant;
pub mod wakelock;
pub mod wallpaper;
