//! Shutdown-guard registry: reference-counted tokens that block process
//! termination while outstanding operations exist.
//!
//! Acquiring a token increments a process-wide counter, releasing it
//! decrements it. The process may exit only when a quit request is pending
//! and the counter is zero; a quit request arriving earlier is deferred and
//! re-checked whenever the counter reaches zero.

use vstd::prelude::*;

verus! {

/// One reason the process must not exit. Scoped to the lifetime of one
/// logical operation; given back to the registry on every exit path of the
/// operation, whether it succeeded, failed or was canceled.
#[derive(Debug)]
pub struct QuitGuard {}

/// The process-wide counter of live [`QuitGuard`] tokens. It is the only
/// shared state of the registry.
#[derive(Debug)]
pub struct GuardRegistry {
    live: u64,
}

impl GuardRegistry {
    /// The number of guards currently live.
    pub closed spec fn count(&self) -> nat {
        self.live as nat
    }

    /// A fresh registry with no live guards.
    pub fn new() -> (r: GuardRegistry)
        ensures
            r.count() == 0,
    {
        GuardRegistry { live: 0 }
    }

    /// The counter, for callers that must re-check the quit condition.
    pub fn live_guards(&self) -> (r: u64)
        ensures
            r as nat == self.count(),
    {
        self.live
    }

    /// Hands out a token and increments the counter.
    pub fn acquire(&mut self) -> (g: QuitGuard)
        requires
            old(self).count() < u64::MAX,
        ensures
            final(self).count() == old(self).count() + 1,
    {
        self.live = self.live + 1;
        QuitGuard {}
    }

    /// Takes a token back and decrements the counter. The token witnesses
    /// that at least one guard is live, so the counter never goes negative.
    pub fn release(&mut self, guard: QuitGuard) -> (r: ())
        requires
            old(self).count() > 0,
        ensures
            final(self).count() == old(self).count() - 1,
    {
        let QuitGuard {} = guard;
        self.live = self.live - 1;
    }

    /// Whether a pending quit request may be honoured now. Shutdown is
    /// level-triggered: a `true` quit request with live guards stays pending.
    pub fn may_quit(&self, quit_requested: bool) -> (r: bool)
        ensures
            r == (quit_requested && self.count() == 0),
    {
        quit_requested && self.live == 0
    }
}

/// Runs one operation bracketed by a guard: acquire, run, always release.
/// Whatever the operation's outcome, the counter is back at its prior value
/// when this returns, and while the operation runs the process cannot exit.
pub fn guarded<T, E, F: FnOnce() -> Result<T, E>>(registry: &mut GuardRegistry, operation: F) -> (r:
    Result<T, E>)
    requires
        old(registry).count() < u64::MAX,
        call_requires(operation, ()),
    ensures
        final(registry).count() == old(registry).count(),
        call_ensures(operation, (), r),
{
    let guard = registry.acquire();
    let result = operation();
    registry.release(guard);
    result
}

/// One step of the counter's history: a guard was acquired or released.
#[derive(Clone, Copy, Debug, PartialEq, Eq, Structural)]
pub enum GuardEvent {
    Acquire,
    Release,
}

/// The counter after `events` have been applied to a counter at `start`.
pub open spec fn count_after(start: int, events: Seq<GuardEvent>) -> int
    decreases events.len(),
{
    if events.len() == 0 {
        start
    } else {
        match events.last() {
            GuardEvent::Acquire => count_after(start, events.drop_last()) + 1,
            GuardEvent::Release => count_after(start, events.drop_last()) - 1,
        }
    }
}

/// A history is realizable when every release happens while a guard is live:
/// [`GuardRegistry::release`] consumes a token, so this holds of every
/// interleaving the registry can produce.
pub open spec fn valid_trace(start: int, events: Seq<GuardEvent>) -> bool {
    forall|k: int|
        0 <= k < events.len() && events[k] is Release ==> count_after(
            start,
            #[trigger] events.take(k),
        ) > 0
}

/// How many of the events acquire a guard.
pub open spec fn acquires(events: Seq<GuardEvent>) -> int
    decreases events.len(),
{
    if events.len() == 0 {
        0
    } else {
        acquires(events.drop_last()) + if events.last() is Acquire {
            1int
        } else {
            0int
        }
    }
}

/// How many of the events release a guard.
pub open spec fn releases(events: Seq<GuardEvent>) -> int
    decreases events.len(),
{
    if events.len() == 0 {
        0
    } else {
        releases(events.drop_last()) + if events.last() is Release {
            1int
        } else {
            0int
        }
    }
}

/// The counter is always the starting value plus the balance of the history.
pub proof fn lemma_count_is_balance(start: int, events: Seq<GuardEvent>)
    ensures
        count_after(start, events) == start + acquires(events) - releases(events),
    decreases events.len(),
{
    if events.len() > 0 {
        lemma_count_is_balance(start, events.drop_last());
    }
}

/// Guard non-negativity: under any interleaving of acquires and releases
/// that the registry can produce, the counter never goes negative, at any
/// point of the history.
pub proof fn lemma_guard_count_never_negative(start: int, events: Seq<GuardEvent>, k: int)
    requires
        start >= 0,
        valid_trace(start, events),
        0 <= k <= events.len(),
    ensures
        count_after(start, events.take(k)) >= 0,
    decreases k,
{
    if k == 0 {
        assert(events.take(0) =~= Seq::<GuardEvent>::empty());
    } else {
        lemma_guard_count_never_negative(start, events, k - 1);
        assert(events.take(k).drop_last() =~= events.take(k - 1));
        assert(events.take(k).last() == events[k - 1]);
        if events[k - 1] is Release {
            assert(count_after(start, events.take(k - 1)) > 0);
        }
    }
}

/// Once every guard of an operation is released, the counter is back at its
/// pre-operation value: a balanced history returns to its starting point.
pub proof fn lemma_balanced_history_returns_to_start(start: int, events: Seq<GuardEvent>)
    requires
        acquires(events) == releases(events),
    ensures
        count_after(start, events) == start,
{
    lemma_count_is_balance(start, events);
}

} // verus!
