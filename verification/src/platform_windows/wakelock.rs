//! Wake locks over the thread execution state.

use crate::error::{ErrorView, UdaError};
use crate::wakelock::{WakeLockGuard, WakeLockType};
use vstd::prelude::*;

verus! {

/// The machine has to stay awake.
pub const ES_SYSTEM_REQUIRED: u32 = 1;

/// The display has to stay on.
pub const ES_DISPLAY_REQUIRED: u32 = 2;

/// The request lasts until the next one. On its own it asks for nothing, which
/// is how a lock is released.
pub const ES_CONTINUOUS: u32 = 0x8000_0000;

/// The execution state that requests a lock.
pub open spec fn requested_state(lock_type: WakeLockType) -> u32 {
    match lock_type {
        WakeLockType::PreventDisplaySleep => ES_CONTINUOUS | ES_DISPLAY_REQUIRED,
        WakeLockType::PreventSystemIdle => ES_CONTINUOUS | ES_DISPLAY_REQUIRED | ES_SYSTEM_REQUIRED,
    }
}

/// Every lock lasts and keeps the display on; only a system lock keeps the
/// machine awake. Releasing asks for neither.
pub proof fn execution_states_ask_for_what_the_lock_says(lock_type: WakeLockType)
    ensures
        requested_state(lock_type) & ES_CONTINUOUS == ES_CONTINUOUS,
        requested_state(lock_type) & ES_DISPLAY_REQUIRED == ES_DISPLAY_REQUIRED,
        (requested_state(lock_type) & ES_SYSTEM_REQUIRED == ES_SYSTEM_REQUIRED) <==> lock_type
            == WakeLockType::PreventSystemIdle,
        ES_CONTINUOUS & ES_DISPLAY_REQUIRED == 0,
        ES_CONTINUOUS & ES_SYSTEM_REQUIRED == 0,
{
    let c: u32 = ES_CONTINUOUS;
    let d: u32 = ES_DISPLAY_REQUIRED;
    let s: u32 = ES_SYSTEM_REQUIRED;
    assert((c | d) & c == c && (c | d) & d == d && (c | d) & s == 0 && (c | d | s) & c == c && (c
        | d | s) & d == d && (c | d | s) & s == s && c & d == 0 && c & s == 0) by (bit_vector)
        requires
            c == 0x8000_0000u32,
            d == 2u32,
            s == 1u32,
    ;
}

/// What is answered when a lock cannot be taken.
pub open spec fn refused_error() -> ErrorView {
    ErrorView::Internal(
        "SetThreadExecutionState failed; wake locks cannot be changed from a power notification callback"@,
    )
}

/// Windows wake lock manager.
#[derive(Debug, Default, Clone, Copy)]
pub struct WindowsWakeLockManager;

impl WindowsWakeLockManager {
    /// A new manager.
    pub fn new() -> (manager: Self)
        ensures
            manager == WindowsWakeLockManager,
    {
        WindowsWakeLockManager
    }

    /// The execution state that requests a lock.
    pub fn execution_state(lock_type: WakeLockType) -> (state: u32)
        ensures
            state == requested_state(lock_type),
    {
        match lock_type {
            WakeLockType::PreventDisplaySleep => ES_CONTINUOUS | ES_DISPLAY_REQUIRED,
            WakeLockType::PreventSystemIdle => ES_CONTINUOUS | ES_DISPLAY_REQUIRED
                | ES_SYSTEM_REQUIRED,
        }
    }

    /// The outcome of a request, from the previous state it reported; 0 means
    /// that nothing was changed. The guard owns the state that releases the lock.
    pub fn acquired(&self, previous: u32) -> (res: Result<WakeLockGuard<u32>, UdaError>)
        ensures
            res is Ok <==> previous != 0,
            res matches Ok(guard) ==> guard.pending() == Some(ES_CONTINUOUS),
            res matches Err(error) ==> error@ == refused_error(),
    {
        if previous == 0 {
            return Err(
                UdaError::Internal(
                    "SetThreadExecutionState failed; wake locks cannot be changed from a power notification callback".to_owned(),
                ),
            );
        }
        Ok(WakeLockGuard::new(ES_CONTINUOUS))
    }
}

/// Guard for a Windows wake lock that tells whether it still holds the lock.
///
/// It wraps the common guard, so there is a single release path.
pub struct WindowsWakeLockGuard<R> {
    inner: WakeLockGuard<R>,
    released: bool,
}

impl<R> WindowsWakeLockGuard<R> {
    /// The release action still to be run.
    pub closed spec fn pending(self) -> Option<R> {
        if self.released {
            None
        } else {
            self.inner.pending()
        }
    }

    /// Whether the lock is still held.
    pub closed spec fn active(self) -> bool {
        !self.released
    }

    /// Wrap the guard of a lock that was acquired.
    pub fn new(inner: WakeLockGuard<R>) -> (guard: Self)
        ensures
            guard.active(),
            guard.pending() == inner.pending(),
    {
        WindowsWakeLockGuard { inner, released: false }
    }

    /// Whether this guard still holds an active wake lock.
    pub fn is_active(&self) -> (yes: bool)
        ensures
            yes == self.active(),
    {
        !self.released
    }

    /// Take the release action, once; the caller runs it. A second call gives
    /// nothing, so releasing by hand and at the end of the guard's life never
    /// releases twice.
    pub fn release_internal(&mut self) -> (action: Option<R>)
        ensures
            action == old(self).pending(),
            !final(self).active(),
            final(self).pending() is None,
    {
        if self.released {
            return None;
        }
        self.released = true;
        self.inner.release()
    }

    /// Release the lock early, consuming the guard; the caller runs the action.
    pub fn release(self) -> (action: Option<R>)
        ensures
            action == self.pending(),
    {
        let mut guard = self;
        guard.release_internal()
    }
}

/// A display lock requests the state `0x8000_0002`, a system lock
/// `0x8000_0003`, and a lock is released by `0x8000_0000`.
pub proof fn execution_state_values(
    previous: u32,
    res: Result<WakeLockGuard<u32>, UdaError>,
)
    requires
        call_ensures(WindowsWakeLockManager::acquired, (&WindowsWakeLockManager, previous), res),
    ensures
        requested_state(WakeLockType::PreventDisplaySleep) == 0x8000_0002,
        requested_state(WakeLockType::PreventSystemIdle) == 0x8000_0003,
        previous != 0 ==> (res matches Ok(guard) && guard.pending() == Some(0x8000_0000u32)),
        previous == 0 ==> (res matches Err(error) && error@ is Internal),
{
    assert(0x8000_0000u32 | 2u32 == 0x8000_0002u32 && 0x8000_0000u32 | 2u32 | 1u32 == 0x8000_0003u32)
        by (bit_vector);
}

/// A guard hands its release out once, and holds its lock until then.
pub proof fn a_guard_releases_once<R>(
    guard: &mut WindowsWakeLockGuard<R>,
    first: Option<R>,
    active: bool,
    again: &mut WindowsWakeLockGuard<R>,
    second: Option<R>,
    still: bool,
)
    requires
        call_ensures(WindowsWakeLockGuard::<R>::is_active, (old(guard),), active),
        call_ensures(WindowsWakeLockGuard::<R>::release_internal, (guard,), first),
        call_ensures(WindowsWakeLockGuard::<R>::is_active, (old(again),), still),
        call_ensures(WindowsWakeLockGuard::<R>::release_internal, (again,), second),
        *old(again) == *final(guard),
    ensures
        active <==> old(guard).active(),
        first == old(guard).pending(),
        !still,
        second is None,
{
}

} // verus!
