//! Wake locks over `org.freedesktop.ScreenSaver`.

use crate::wakelock::{screen_saver_flag_values, WakeLockGuard, WakeLockType};
use vstd::prelude::*;

verus! {

/// Bus name of the ScreenSaver service; its interface has the same name.
pub const SCREEN_SAVER_SERVICE: &'static str = "org.freedesktop.ScreenSaver";

/// Object path of the ScreenSaver service.
pub const SCREEN_SAVER_PATH: &'static str = "/org/freedesktop/ScreenSaver";

/// The name under which locks are taken.
pub const APP_NAME: &'static str = "uda-platform-linux";

/// The `Inhibit` parameters of a lock.
#[derive(Debug, PartialEq, Eq)]
pub struct InhibitRequest {
    /// Who asks.
    pub app_name: String,
    /// Why.
    pub reason: String,
    /// What is inhibited.
    pub flags: u32,
}

/// The `Inhibit` parameters of a lock.
pub fn inhibit_request(app_name: &str, lock_type: WakeLockType, reason: &str) -> (request:
    InhibitRequest)
    ensures
        request.app_name@ == app_name@,
        request.reason@ == reason@,
        request.flags == lock_type.screen_saver_flags(),
{
    InhibitRequest {
        app_name: app_name.to_owned(),
        reason: reason.to_owned(),
        flags: lock_type.to_screen_saver_flags(),
    }
}

/// The guard of a granted lock: it owns the `UnInhibit` of its cookie.
pub fn granted(cookie: u32) -> (guard: WakeLockGuard<u32>)
    ensures
        guard.pending() == Some(cookie),
{
    WakeLockGuard::new(cookie)
}

/// A lock is asked for under the given name and with the given reason: a display
/// lock with the flags 8, a system lock with 12.
pub proof fn a_lock_is_asked_for_as_given(
    app_name: &str,
    lock_type: WakeLockType,
    reason: &str,
    request: InhibitRequest,
)
    requires
        call_ensures(inhibit_request, (app_name, lock_type, reason), request),
    ensures
        request.app_name@ == app_name@,
        request.reason@ == reason@,
        request.flags == (match lock_type {
            WakeLockType::PreventDisplaySleep => 8u32,
            WakeLockType::PreventSystemIdle => 12u32,
        }),
{
    screen_saver_flag_values();
}

} // verus!
