//! UniDesktop API: one capability-driven interface to the desktop features that
//! Linux desktops and Windows each expose in their own way.
//!
//! The crate holds the decisions: what is validated, which backend is tried,
//! what is written and in which order, and which error a caller gets. Talking to
//! a bus, a registry or a helper command is left to the program around it, which
//! hands plain values in and carries plain values out.

pub mod appearance;
pub mod capability;
pub mod error;
pub mod ffi;
pub mod notification;
pub mod platform_linux;
pub mod platform_windows;
pub mod text;
pub mod tray;
pub mod utf16;
pub mod wakelock;
pub mod wallpaper;

use vstd::prelude::*;

verus! {

/// Fallback identifier used when a backend discovers no application name.
///
/// Bus names and window titles embed this value, so a backend substitutes it for
/// an empty name rather than emitting an empty identifier.
pub const DEFAULT_APP_NAME: &'static str = "UDA";

} // verus!
