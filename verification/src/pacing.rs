//! Pacing of blocked waits under the virtual clock.
//!
//! While capture is active, a bounded wait or sleep must not burn real
//! time: the waiting thread is parked on an internal barrier that the clock
//! releases once per tick.  A tick opens one wait epoch: every thread
//! blocked for the current epoch resumes exactly once, and a thread that
//! has already been released must re-enter the barrier before the next tick
//! can release it again.  Infinite waits, waits longer than the largest
//! representable bounded wait, and waits the host asked to satisfy in
//! full pass through unchanged.

use vstd::prelude::*;
use crate::clock::VirtualClock;

verus! {

/// The timeout value that means an unbounded wait.
pub const INFINITE_WAIT: u32 = 0xFFFF_FFFF;

/// The longest bounded wait the barrier paces; anything above it
/// passes through untouched.
pub const MAX_VIRTUAL_WAIT: u32 = 0x7FFF_FFFF;

/// The native code for a wait that ended by timing out.
pub const WAIT_TIMEOUT_CODE: u32 = 0x102;

/// The tick-released barrier: an epoch counter plus, for each thread that
/// entered a paced wait, the epoch it is waiting out.
pub struct TickBarrier {
    pub epoch: u64,
    pub waiters: Vec<u64>,
}

impl TickBarrier {
    /// No waiter can be ahead of the barrier's own epoch.
    pub open spec fn wf(self) -> bool {
        forall|i: int| 0 <= i < self.waiters@.len() ==> self.waiters@[i] <= self.epoch
    }

    /// Waiter `i` is parked, waiting for the current epoch to end.
    pub open spec fn blocked(self, i: int) -> bool {
        0 <= i < self.waiters@.len() && self.waiters@[i] == self.epoch
    }

    /// Waiter `i` has been woken by some earlier tick.
    pub open spec fn released(self, i: int) -> bool {
        0 <= i < self.waiters@.len() && self.waiters@[i] < self.epoch
    }

    /// The barrier state after one tick: a new epoch begins.
    pub open spec fn tick_step(self) -> Self {
        Self { epoch: (self.epoch + 1) as u64, ..self }
    }

    /// A fresh barrier with no waiters.
    pub fn new() -> (g: Self)
        ensures
            g.wf(),
            g.epoch == 0,
            g.waiters@.len() == 0,
    {
        TickBarrier { epoch: 0, waiters: Vec::new() }
    }

    /// A thread enters a paced wait and is parked for the current epoch.
    /// Waiters already present are unaffected.
    pub fn begin_wait(&mut self) -> (id: usize)
        requires
            old(self).wf(),
        ensures
            final(self).wf(),
            final(self).epoch == old(self).epoch,
            final(self).waiters@ == old(self).waiters@.push(old(self).epoch),
            id == old(self).waiters@.len(),
            final(self).blocked(id as int),
            forall|i: int| 0 <= i < old(self).waiters@.len() ==>
                final(self).blocked(i) == old(self).blocked(i),
    {
        let id = self.waiters.len();
        let e = self.epoch;
        self.waiters.push(e);
        id
    }

    /// One tick: close the current epoch and open the next.
    ///
    /// Every thread that was blocked is released by this single advance;
    /// a thread that was already released is not woken again.
    pub fn tick(&mut self)
        requires
            old(self).wf(),
            old(self).epoch < u64::MAX,
        ensures
            final(self).wf(),
            *final(self) == old(self).tick_step(),
            forall|i: int| old(self).blocked(i) ==> final(self).released(i),
            forall|i: int| 0 <= i < final(self).waiters@.len() ==> !final(self).blocked(i),
    {
        self.epoch = self.epoch + 1;
    }
}

/// A single tick releases every blocked waiter, releases each of them
/// only through this one epoch change, and never re-releases a waiter a
/// second time: the epoch a waiter entered at is the only epoch whose
/// closing tick wakes it.
pub proof fn lemma_tick_release_discipline(g: TickBarrier)
    requires
        g.wf(),
        g.epoch < u64::MAX,
    ensures
        forall|i: int| g.blocked(i) ==> g.tick_step().released(i),
        forall|i: int| g.released(i) ==> !g.tick_step().blocked(i),
        forall|i: int| 0 <= i < g.waiters@.len() ==> !g.tick_step().blocked(i),
{
}

/// How an intercepted bounded wait is to be performed.
#[derive(Clone, Copy, PartialEq, Eq, Structural)]
pub enum WaitPlan {
    /// Forward the wait to the native function unchanged.
    PassThrough,
    /// Wait on the original handles plus the tick-release handle, with
    /// the host's own timeout.
    Paced,
}

/// Decide how a single-object wait runs.  Virtualization applies only
/// while the clock is enabled and the timeout is a representable bounded
/// wait; everything else keeps native behavior.
pub fn single_wait_plan(clock_enabled: bool, ms: u32) -> (p: WaitPlan)
    ensures
        p == if !clock_enabled || ms > MAX_VIRTUAL_WAIT {
            WaitPlan::PassThrough
        } else {
            WaitPlan::Paced
        },
{
    if !clock_enabled || ms > MAX_VIRTUAL_WAIT {
        WaitPlan::PassThrough
    } else {
        WaitPlan::Paced
    }
}

/// Decide how a multiple-object wait runs.  Every bounded wait joins
/// the pacing with the host's own timeout, a wait-all request the same
/// as a wait-any one: only the meaning of elapsed time changes, never
/// the timeout semantics the host asked for.
pub fn multiple_wait_plan(clock_enabled: bool, _wait_all: bool, ms: u32) -> (p: WaitPlan)
    ensures
        p == if !clock_enabled || ms > MAX_VIRTUAL_WAIT {
            WaitPlan::PassThrough
        } else {
            WaitPlan::Paced
        },
{
    if !clock_enabled || ms > MAX_VIRTUAL_WAIT {
        WaitPlan::PassThrough
    } else {
        WaitPlan::Paced
    }
}

/// Decide how an intercepted sleep runs.  A zero sleep is a bare yield
/// and stays native; any positive sleep waits for the next tick instead
/// of real time.
pub fn sleep_plan(clock_enabled: bool, ms: u32) -> (p: WaitPlan)
    ensures
        p == if !clock_enabled || ms == 0 {
            WaitPlan::PassThrough
        } else {
            WaitPlan::Paced
        },
{
    if !clock_enabled || ms == 0 {
        WaitPlan::PassThrough
    } else {
        WaitPlan::Paced
    }
}

/// One completed capture event, seen by both timing surfaces at once:
/// the virtual clock takes its tick, and — when the clock was already
/// running — the barrier releases the waiters of the closing epoch,
/// exactly once.  The first event of a session only enables the clock;
/// no epoch has opened yet, so nothing is released.
pub fn capture_event(clock: &mut VirtualClock, barrier: &mut TickBarrier)
    requires
        old(clock).wf(),
        old(clock).tick < crate::clock::TICK_MAX,
        old(barrier).wf(),
        old(barrier).epoch < u64::MAX,
    ensures
        final(clock).wf(),
        *final(clock) == old(clock).tick_step(),
        final(clock).enabled,
        final(barrier).wf(),
        old(clock).enabled ==> {
            &&& *final(barrier) == old(barrier).tick_step()
            &&& forall|i: int| old(barrier).blocked(i) ==> final(barrier).released(i)
        },
        !old(clock).enabled ==> *final(barrier) == *old(barrier),
{
    if clock.enabled {
        barrier.tick();
    }
    clock.incr_tick();
}

/// The end of capture, seen by both timing surfaces at once: a last
/// epoch release lets no waiter stay parked on a clock that will no
/// longer tick, and the clock switches back to offset-corrected real
/// time.  A clock that was never enabled changes nothing.
pub fn pause_capture(clock: &mut VirtualClock, barrier: &mut TickBarrier, real_now: i64)
    requires
        old(clock).wf(),
        old(clock).base_count <= real_now,
        -crate::clock::COUNT_BOUND <= real_now <= crate::clock::COUNT_BOUND,
        old(barrier).wf(),
        old(barrier).epoch < u64::MAX,
    ensures
        final(clock).wf(),
        *final(clock) == old(clock).pause_step(real_now as int),
        !final(clock).enabled,
        final(barrier).wf(),
        old(clock).enabled ==> {
            &&& *final(barrier) == old(barrier).tick_step()
            &&& forall|i: int| old(barrier).blocked(i) ==> final(barrier).released(i)
        },
        !old(clock).enabled ==> *final(barrier) == *old(barrier),
{
    if clock.enabled {
        barrier.tick();
    }
    clock.pause(real_now);
}

/// The handle list for a paced wait: the host's handles with the
/// release handle appended after them, so the host's own indices are
/// unchanged.
pub fn augmented_handles(handles: &Vec<usize>, barrier_handle: usize) -> (r: Vec<usize>)
    requires
        handles@.len() < usize::MAX,
    ensures
        r@ == handles@.push(barrier_handle),
{
    let mut r: Vec<usize> = Vec::new();
    let mut i: usize = 0;
    while i < handles.len()
        invariant
            i <= handles@.len(),
            r@ == handles@.take(i as int),
        decreases handles@.len() - i,
    {
        r.push(handles[i]);
        i = i + 1;
    }
    proof {
        assert(handles@.take(handles@.len() as int) =~= handles@);
    }
    r.push(barrier_handle);
    r
}

/// Translate the result of a paced wait back into what the host
/// expects: if the wait ended because a tick signalled the appended
/// release handle, whose index equals the original handle count, the
/// host sees an ordinary timeout; any other result is the host's own.
pub fn translate_wait_result(res: u32, original_count: u32) -> (r: u32)
    ensures
        res == original_count ==> r == WAIT_TIMEOUT_CODE,
        res != original_count ==> r == res,
{
    if res == original_count {
        WAIT_TIMEOUT_CODE
    } else {
        res
    }
}

} // verus!
