//! Wake locks and the guard that releases one exactly once.

use crate::error::UdaError;
use vstd::prelude::*;

verus! {

/// Type of wake lock to acquire.
#[derive(Debug, Clone, Copy, PartialEq, Eq, Structural)]
pub enum WakeLockType {
    /// Prevent the display/screen from sleeping.
    PreventDisplaySleep,
    /// Prevent the system from idling/suspending.
    PreventSystemIdle,
}

/// The `InhibitSuspend` bit of the ScreenSaver interface.
pub const INHIBIT_SUSPEND: u32 = 4;

/// The `InhibitIdle` bit of the ScreenSaver interface.
pub const INHIBIT_IDLE: u32 = 8;

impl WakeLockType {
    /// The ScreenSaver flags that request this lock.
    pub open spec fn screen_saver_flags(self) -> u32 {
        match self {
            WakeLockType::PreventDisplaySleep => INHIBIT_IDLE,
            WakeLockType::PreventSystemIdle => INHIBIT_IDLE | INHIBIT_SUSPEND,
        }
    }

    /// Map to FreeDesktop ScreenSaver inhibit flags (org.freedesktop.ScreenSaver).
    pub fn to_screen_saver_flags(&self) -> (flags: u32)
        ensures
            flags == self.screen_saver_flags(),
    {
        match self {
            WakeLockType::PreventDisplaySleep => INHIBIT_IDLE,
            WakeLockType::PreventSystemIdle => INHIBIT_IDLE | INHIBIT_SUSPEND,
        }
    }
}

/// The flags are 8 for a display lock and 12 for a system lock.
pub proof fn screen_saver_flag_values()
    ensures
        WakeLockType::PreventDisplaySleep.screen_saver_flags() == 8,
        WakeLockType::PreventSystemIdle.screen_saver_flags() == 12,
{
    assert(8u32 | 4u32 == 12u32) by (bit_vector);
}

/// Guard for a wake lock.
///
/// It owns the action that releases the lock and hands it out once: to whoever
/// releases the lock first, by hand or at the end of the guard's life.
pub struct WakeLockGuard<R> {
    release_fn: Option<R>,
}

impl<R> WakeLockGuard<R> {
    /// The release action still to be run.
    pub closed spec fn pending(self) -> Option<R> {
        self.release_fn
    }

    /// A guard over a lock that `release_fn` releases.
    pub fn new(release_fn: R) -> (guard: Self)
        ensures
            guard.pending() == Some(release_fn),
    {
        WakeLockGuard { release_fn: Some(release_fn) }
    }

    /// Take the release action; the caller runs it. The guard is spent afterwards.
    pub fn release(&mut self) -> (action: Option<R>)
        ensures
            action == old(self).pending(),
            final(self).pending() is None,
    {
        self.release_fn.take()
    }
}

/// Cross-platform wake lock management interface.
pub trait WakeLockManager {
    /// What releases a lock of this backend.
    type Release;

    /// Acquire a wake lock of the given type, waiting until it is granted.
    ///
    /// Returns a [`WakeLockGuard`] that owns the release of the lock.
    fn acquire(&self, lock_type: WakeLockType, reason: &str) -> Result<
        WakeLockGuard<Self::Release>,
        UdaError,
    >;
}

/// A guard hands its release out once: to whoever takes it first.
pub proof fn a_release_is_handed_out_once<R>(
    release: R,
    guard: &mut WakeLockGuard<R>,
    first: Option<R>,
    again: &mut WakeLockGuard<R>,
    second: Option<R>,
)
    requires
        call_ensures(WakeLockGuard::<R>::new, (release,), *old(guard)),
        call_ensures(WakeLockGuard::<R>::release, (guard,), first),
        *old(again) == *final(guard),
        call_ensures(WakeLockGuard::<R>::release, (again,), second),
    ensures
        first == Some(release),
        second is None,
{
}

} // verus!
