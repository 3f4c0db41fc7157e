//! The wake locks a caller holds, by handle.

use crate::error::{ErrorView, UdaError};
use crate::ffi::boundary::LastMessage;
use crate::ffi::dispatch::WakeLockHandle;
use crate::ffi::error::{Failure, FailureView};
use crate::text::{decimal, holds, parts_are_found_where_they_stand, show, texts};
use crate::wakelock::{WakeLockGuard, WakeLockType};
use std::collections::HashMap;
use vstd::prelude::*;

verus! {

broadcast use vstd::std_specs::hash::group_hash_axioms;

/// Lifetime, in seconds, granted to a lock that a helper process holds.
pub const CLI_LOCK_SECONDS: u64 = 3600;

// ---------------------------------------------------------------------------
// Helper process
// ---------------------------------------------------------------------------
/// What a lock inhibits, as `systemd-inhibit` names it.
pub open spec fn inhibited(lock_type: WakeLockType) -> Seq<char> {
    match lock_type {
        WakeLockType::PreventDisplaySleep => "idle"@,
        WakeLockType::PreventSystemIdle => "idle:sleep"@,
    }
}

/// What a lock inhibits, as `systemd-inhibit` names it.
pub fn inhibit_what(lock_type: WakeLockType) -> (what: &'static str)
    ensures
        what@ == inhibited(lock_type),
{
    match lock_type {
        WakeLockType::PreventDisplaySleep => "idle",
        WakeLockType::PreventSystemIdle => "idle:sleep",
    }
}

/// The arguments under which `systemd-inhibit` holds a lock for as long as its
/// child runs.
pub open spec fn inhibit_words(lock_type: WakeLockType, reason: Seq<char>) -> Seq<Seq<char>> {
    seq![
        "--who=UDA"@,
        "--why="@ + reason,
        "--what="@ + inhibited(lock_type),
        "--mode=block"@,
        "sleep"@,
        decimal(CLI_LOCK_SECONDS as nat),
    ]
}

/// The arguments of `systemd-inhibit` for a lock.
pub fn cli_lock_args(lock_type: WakeLockType, reason: &str) -> (args: Vec<String>)
    ensures
        texts(args@) == inhibit_words(lock_type, reason@),
{
    let mut args: Vec<String> = Vec::new();
    args.push("--who=UDA".to_owned());
    args.push("--why=".to_owned().concat(reason));
    args.push("--what=".to_owned().concat(inhibit_what(lock_type)));
    args.push("--mode=block".to_owned());
    args.push("sleep".to_owned());
    args.push(show(CLI_LOCK_SECONDS));
    proof {
        assert(texts(args@) =~= inhibit_words(lock_type, reason@));
    }
    args
}

/// What is answered when neither a service nor the helper can hold a lock.
pub fn cli_failure(shown: &str) -> (failure: Failure)
    ensures
        failure@ == FailureView::Uda(
            ErrorView::NotSupported(
                "no native wake lock and the systemd-inhibit CLI fallback is unavailable: "@
                    + shown@,
            ),
        ),
{
    Failure::Uda(
        UdaError::NotSupported(
            "no native wake lock and the systemd-inhibit CLI fallback is unavailable: ".to_owned().concat(
            shown),
        ),
    )
}

/// Which way of holding a lock to take next.
#[derive(Debug, Clone, Copy, PartialEq, Eq, Structural)]
pub enum LockTier {
    /// The platform's own service.
    Native,
    /// The helper process.
    Cli,
}

/// The way to take after the platform's own service was asked: it is kept where
/// it granted the lock, and the helper is tried otherwise, whatever the error.
pub fn tier_after<R>(native: &Result<WakeLockGuard<R>, UdaError>) -> (tier: LockTier)
    ensures
        tier == (if native is Ok {
            LockTier::Native
        } else {
            LockTier::Cli
        }),
{
    match native {
        Ok(_) => LockTier::Native,
        Err(_) => LockTier::Cli,
    }
}

/// What a caller is told about a lock that was granted: one that a helper holds
/// ends by itself.
pub open spec fn lock_notice(tier: LockTier) -> Option<Seq<char>> {
    match tier {
        LockTier::Native => None,
        LockTier::Cli => Some(
            "the wake lock is held by systemd-inhibit and ends after "@ + decimal(
                CLI_LOCK_SECONDS as nat,
            ) + " seconds"@,
        ),
    }
}

/// A lock was granted: leave what the caller has to know about it as the last
/// message. There is nothing to know about a native lock, which leaves the slot
/// alone.
pub fn report_granted(slot: &mut LastMessage, tier: LockTier)
    ensures
        final(slot)@ == (match lock_notice(tier) {
            Some(notice) => Some(notice),
            None => old(slot)@,
        }),
{
    if tier == LockTier::Cli {
        let notice = "the wake lock is held by systemd-inhibit and ends after ".to_owned().concat(
            show(CLI_LOCK_SECONDS).as_str(),
        ).concat(" seconds");
        slot.set_last_message(notice.as_str());
    }
}

// ---------------------------------------------------------------------------
// Registry
// ---------------------------------------------------------------------------
/// How a live lock has to be released. `R` releases a native lock, `C` is the
/// helper process.
pub enum LockEntry<R, C> {
    /// A native guard.
    Native(WakeLockGuard<R>),
    /// A helper holding the lock for as long as it runs.
    Cli {
        /// The helper process.
        child: C,
        /// When it exits by itself, in seconds.
        expires_at: u64,
    },
}

/// The wake locks of a process.
pub struct LockRegistry<R, C> {
    entries: HashMap<u64, LockEntry<R, C>>,
    counter: u64,
}

/// What a lock that could not be registered leaves: the failure to report, and
/// the lock, which has to be released.
pub struct Unregistered<R, C> {
    /// The failure to report.
    pub failure: Failure,
    /// The lock to release.
    pub entry: LockEntry<R, C>,
}

/// The counter after one more handle.
pub open spec fn advanced(counter: u64) -> u64 {
    if counter == u64::MAX {
        0
    } else {
        (counter + 1) as u64
    }
}

/// What is answered for a handle that is not live.
pub open spec fn unknown_lock(raw: u64) -> FailureView {
    FailureView::InvalidArgument(
        "wake-lock handle "@ + decimal(raw as nat) + " is not a live lock in this process"@,
    )
}

impl<R, C> LockRegistry<R, C> {
    /// The live locks.
    pub closed spec fn view(self) -> Map<u64, LockEntry<R, C>> {
        self.entries@
    }

    /// The handle of the next lock.
    pub closed spec fn next(self) -> u64 {
        self.counter
    }

    /// Whether every live handle was handed out before: the counter has not come
    /// round to 0.
    pub open spec fn wf(self) -> bool {
        &&& self.next() > 0
        &&& forall|raw: u64| #[trigger] self@.contains_key(raw) ==> 0 < raw < self.next()
        &&& self@.dom().finite()
    }

    /// A registry without locks. Handles start at 1.
    pub fn new() -> (registry: Self)
        ensures
            registry@ == Map::<u64, LockEntry<R, C>>::empty(),
            registry.next() == 1,
            registry.wf(),
    {
        LockRegistry { entries: HashMap::new(), counter: 1 }
    }

    /// Register a lock that was acquired and return its handle.
    pub fn register(&mut self, entry: LockEntry<R, C>) -> (res: Result<
        WakeLockHandle,
        Unregistered<R, C>,
    >)
        ensures
            final(self).next() == advanced(old(self).next()),
            res is Ok <==> old(self).next() != 0,
            res matches Ok(handle) ==> handle@ == old(self).next() && final(self)@ == old(
                self,
            )@.insert(old(self).next(), entry),
            res matches Err(left) ==> left.entry == entry && left.failure@
                == FailureView::InvalidArgument("handle counter produced 0"@) && final(self)@
                == old(self)@,
            old(self).wf() && old(self).next() < u64::MAX ==> final(self).wf(),
    {
        let raw: u64 = self.counter;
        self.counter = self.counter.wrapping_add(1);
        match WakeLockHandle::from_raw(raw) {
            Some(handle) => {
                self.entries.insert(raw, entry);
                Ok(handle)
            },
            None => Err(
                Unregistered {
                    failure: Failure::InvalidArgument("handle counter produced 0".to_owned()),
                    entry,
                },
            ),
        }
    }

    /// Take the lock behind a handle out of the registry; the caller releases
    /// it. It is gone from the registry before it is released.
    pub fn release(&mut self, handle: WakeLockHandle) -> (res: Result<LockEntry<R, C>, Failure>)
        ensures
            final(self).next() == old(self).next(),
            res is Ok <==> old(self)@.contains_key(handle@),
            res matches Ok(entry) ==> entry == old(self)@[handle@] && final(self)@ == old(
                self,
            )@.remove(handle@),
            res matches Err(failure) ==> failure@ == unknown_lock(handle@) && final(self)@ == old(
                self,
            )@,
            old(self).wf() ==> final(self).wf(),
    {
        let raw: u64 = handle.raw();
        match self.entries.remove(&raw) {
            Some(entry) => Ok(entry),
            None => {
                proof {
                    assert(self@ =~= old(self)@);
                }
                Err(
                    Failure::InvalidArgument(
                        "wake-lock handle ".to_owned().concat(show(raw).as_str()).concat(
                            " is not a live lock in this process",
                        ),
                    ),
                )
            },
        }
    }

    /// Number of live locks.
    pub fn live_count(&self) -> (count: usize)
        ensures
            count == self@.len(),
    {
        self.entries.len()
    }
}

/// What releasing a lock asks for.
#[derive(Debug, Clone, Copy, PartialEq, Eq, Structural)]
pub enum Release {
    /// Run the release action of the guard.
    RunGuard,
    /// Kill the helper, then wait for it.
    KillAndWait,
    /// Wait for the helper; it already exited, and its lock is gone.
    Wait,
}

impl<R, C> LockEntry<R, C> {
    /// What releasing this lock asks for, given whether its helper still runs.
    pub fn release_plan(&self, still_running: bool) -> (plan: Release)
        ensures
            plan == (match *self {
                LockEntry::Native(_) => Release::RunGuard,
                LockEntry::Cli { .. } => if still_running {
                    Release::KillAndWait
                } else {
                    Release::Wait
                },
            }),
    {
        match self {
            LockEntry::Native(_) => Release::RunGuard,
            LockEntry::Cli { .. } => if still_running {
                Release::KillAndWait
            } else {
                Release::Wait
            },
        }
    }
}

/// Until the counter comes round, a new lock gets a handle that no live lock has
/// and that is not 0; registering it leaves the other locks alone, and releasing
/// it again leaves the registry as it was.
pub proof fn a_lock_round_trips_through_the_registry<R, C>(
    registry: LockRegistry<R, C>,
    entry: LockEntry<R, C>,
    other: u64,
)
    requires
        registry.wf(),
    ensures
        ({
            let raw = registry.next();
            let held = registry@.insert(raw, entry);
            &&& raw != 0
            &&& !registry@.contains_key(raw)
            &&& held.contains_key(raw) && held[raw] == entry
            &&& held.len() == registry@.len() + 1
            &&& other != raw ==> (held.contains_key(other) <==> registry@.contains_key(other)) && (
            registry@.contains_key(other) ==> held[other] == registry@[other])
            &&& held.remove(raw) == registry@
        }),
{
    let raw = registry.next();
    assert(registry@.insert(raw, entry).remove(raw) =~= registry@);
}

/// A handle is good for one release: once its lock was taken out, the registry
/// does not know it.
pub proof fn a_handle_is_single_use<R, C>(held: Map<u64, LockEntry<R, C>>, raw: u64)
    requires
        held.contains_key(raw),
        held.dom().finite(),
    ensures
        !held.remove(raw).contains_key(raw),
        held.remove(raw).len() == held.len() - 1,
{
}

/// The helper holds a lock for an hour, in the caller's words: a display lock
/// against idling, a system lock against idling and sleep.
pub proof fn a_helper_holds_what_the_lock_says(lock_type: WakeLockType, reason: Seq<char>)
    ensures
        ({
            let words = inhibit_words(lock_type, reason);
            &&& words.len() == 6
            &&& words[0] == "--who=UDA"@
            &&& words[1] == "--why="@ + reason
            &&& lock_type == WakeLockType::PreventDisplaySleep ==> words[2] == "--what="@ + "idle"@
            &&& lock_type == WakeLockType::PreventSystemIdle ==> words[2] == "--what="@
                + "idle:sleep"@
            &&& words[3] == "--mode=block"@
            &&& words[4] == "sleep"@
            &&& words[5] == decimal(3600)
        }),
{
}

/// The helper is asked exactly when the platform's own service refused; only its
/// lock ends by itself, and only then is the caller told so, with the seconds.
pub proof fn only_a_helpers_lock_ends_by_itself<R>(
    native: Result<WakeLockGuard<R>, UdaError>,
    tier: LockTier,
)
    requires
        call_ensures(tier_after::<R>, (&native,), tier),
    ensures
        tier == LockTier::Native <==> native is Ok,
        tier == LockTier::Cli <==> native is Err,
        lock_notice(tier) is Some <==> native is Err,
        lock_notice(tier) matches Some(notice) ==> holds(notice, decimal(3600)),
{
    parts_are_found_where_they_stand(
        "the wake lock is held by systemd-inhibit and ends after "@,
        decimal(3600),
        " seconds"@,
    );
}

/// Handles are counted up one by one, and only the largest comes round to 0.
pub proof fn handles_are_counted_up(counter: u64)
    ensures
        counter < u64::MAX ==> advanced(counter) == counter + 1,
        advanced(counter) == 0 <==> counter == u64::MAX,
{
}

/// A handle that is not live is the caller's mistake, and is told back.
pub proof fn an_unknown_lock_is_told_back(raw: u64)
    ensures
        unknown_lock(raw) matches FailureView::InvalidArgument(text) && holds(
            text,
            decimal(raw as nat),
        ),
        unknown_lock(raw).code() == -1,
{
    parts_are_found_where_they_stand(
        "wake-lock handle "@,
        decimal(raw as nat),
        " is not a live lock in this process"@,
    );
}

/// A native lock is released by its guard; a helper is killed while it runs, and
/// waited for in any case.
pub proof fn a_lock_is_released_the_way_it_is_held<R, C>(
    entry: LockEntry<R, C>,
    still_running: bool,
    plan: Release,
)
    requires
        call_ensures(LockEntry::<R, C>::release_plan, (&entry, still_running), plan),
    ensures
        plan == Release::RunGuard <==> entry is Native,
        plan == Release::KillAndWait <==> entry is Cli && still_running,
        plan == Release::Wait <==> entry is Cli && !still_running,
{
}

/// A lock that was registered is live under its handle until it is released, and
/// then handed out as it was; the other locks are left alone.
pub proof fn a_registered_lock_is_released_as_it_was<R, C>(
    registry: &mut LockRegistry<R, C>,
    entry: LockEntry<R, C>,
    res: Result<WakeLockHandle, Unregistered<R, C>>,
    later: &mut LockRegistry<R, C>,
    back: Result<LockEntry<R, C>, Failure>,
    other: u64,
)
    requires
        call_ensures(LockRegistry::<R, C>::register, (registry, entry), res),
        old(registry).wf(),
        res is Ok,
        *old(later) == *final(registry),
        call_ensures(LockRegistry::<R, C>::release, (later, res->Ok_0), back),
    ensures
        res->Ok_0@ != 0,
        !old(registry)@.contains_key(res->Ok_0@),
        back matches Ok(held) && held == entry,
        !final(later)@.contains_key(res->Ok_0@),
        final(later)@ == old(registry)@,
        other != res->Ok_0@ ==> (final(registry)@.contains_key(other) <==> old(
            registry,
        )@.contains_key(other)),
{
    let raw = old(registry).next();
    a_lock_round_trips_through_the_registry(*old(registry), entry, other);
}

/// A handle that names no live lock is refused as the caller's mistake, and a lock
/// that got no handle is handed back; neither changes what is held.
pub proof fn a_refused_lock_changes_nothing<R, C>(
    registry: &mut LockRegistry<R, C>,
    handle: WakeLockHandle,
    back: Result<LockEntry<R, C>, Failure>,
    full: &mut LockRegistry<R, C>,
    entry: LockEntry<R, C>,
    res: Result<WakeLockHandle, Unregistered<R, C>>,
)
    requires
        call_ensures(LockRegistry::<R, C>::release, (registry, handle), back),
        call_ensures(LockRegistry::<R, C>::register, (full, entry), res),
    ensures
        back is Ok <==> old(registry)@.contains_key(handle@),
        back matches Err(failure) ==> failure@.code() == -1 && final(registry)@ == old(registry)@,
        res is Ok <==> old(full).next() != 0,
        res matches Err(left) ==> left.entry == entry && left.failure@.code() == -1
            && final(full)@ == old(full)@,
{
}

/// A caller is told of a lock that a helper holds, and of no other.
pub proof fn a_caller_is_told_of_a_helpers_lock(
    slot: &mut LastMessage,
    tier: LockTier,
)
    requires
        call_ensures(report_granted, (slot, tier), ()),
    ensures
        tier == LockTier::Native ==> final(slot)@ == old(slot)@,
        tier == LockTier::Cli ==> (final(slot)@ matches Some(notice) && holds(
            notice,
            decimal(3600),
        )),
{
    parts_are_found_where_they_stand(
        "the wake lock is held by systemd-inhibit and ends after "@,
        decimal(3600),
        " seconds"@,
    );
}

} // verus!
