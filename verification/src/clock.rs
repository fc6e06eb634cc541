//! The virtual clock.
//!
//! While capture is active the host must see a synthetic, tick-driven
//! timeline: each captured frame advances the clock by exactly one tick,
//! and a tick is worth a fixed number of performance-counter units.  While
//! capture is inactive the clock passes real time through, corrected by an
//! offset so that the switch between the two regimes is seamless.
//!
//! A force-tick safety valve bounds staleness when the host polls time
//! without presenting: after a configured number of consecutive queries
//! with no intervening tick, one extra tick is forced.

use vstd::prelude::*;

verus! {

/// Largest tick count the clock accepts; far beyond any real session.
pub const TICK_MAX: i64 = 0x100_0000_0000;

/// Largest number of counter units per tick the clock accepts.
pub const COUNT_PER_TICK_MAX: i64 = 0x10_0000;

/// Bound on counter readings handed to the clock.
pub const COUNT_BOUND: i64 = 0x1000_0000_0000_0000;

/// Bound on the magnitude of the continuity offset; twice
/// [`COUNT_BOUND`].
pub const OFFSET_BOUND: i64 = 0x2000_0000_0000_0000;

/// State of the synthetic timeline presented to the host.
///
/// When `enabled` is false the clock reports real time plus `offset`;
/// when it is true the clock reports `base_count` plus `tick` whole
/// ticks.  `alarm` counts consecutive time queries since the last tick.
pub struct VirtualClock {
    pub enabled: bool,
    pub tick: i64,
    pub base_count: i64,
    pub offset: i64,
    pub count_per_tick: i64,
    pub alarm: u64,
    pub force_tick_threshold: u64,
}

impl VirtualClock {
    /// The bounds every reachable clock satisfies.
    pub open spec fn wf(self) -> bool {
        &&& 0 <= self.tick <= TICK_MAX
        &&& 0 < self.count_per_tick <= COUNT_PER_TICK_MAX
        &&& -COUNT_BOUND <= self.base_count <= COUNT_BOUND
        &&& -OFFSET_BOUND <= self.offset <= 0
        &&& self.alarm <= self.force_tick_threshold
    }

    /// Time reported while the clock is enabled: a pure function of the
    /// tick counter.
    pub open spec fn enabled_time(self) -> int {
        self.base_count + self.tick * self.count_per_tick
    }

    /// Time reported while the clock is disabled: real time, offset so
    /// the timeline stayed continuous when capture last ended.
    pub open spec fn disabled_time(self, now: int) -> int {
        now + self.offset + self.tick * self.count_per_tick
    }

    /// The value a query returns, before any force-tick bookkeeping.
    pub open spec fn reading(self, now: int) -> int {
        if self.enabled {
            self.enabled_time()
        } else {
            self.disabled_time(now)
        }
    }

    /// State after one capture event: the first event enables the clock,
    /// every later one advances it by exactly one tick.
    pub open spec fn tick_step(self) -> Self {
        if !self.enabled {
            Self { enabled: true, ..self }
        } else {
            Self { tick: (self.tick + 1) as i64, alarm: 0, ..self }
        }
    }

    /// State after one enabled-mode time query: the alarm counter grows
    /// until it reaches the threshold, at which point one tick is forced.
    pub open spec fn query_step(self) -> Self {
        if self.alarm >= self.force_tick_threshold {
            Self { tick: (self.tick + 1) as i64, alarm: 0, ..self }
        } else {
            Self { alarm: (self.alarm + 1) as u64, ..self }
        }
    }

    /// State after capture ends: the offset is recomputed against real
    /// time so the disabled timeline continues where the enabled one left
    /// off.
    pub open spec fn pause_step(self, real_now: int) -> Self {
        if self.enabled {
            Self {
                enabled: false,
                offset: (self.base_count - real_now) as i64,
                ..self
            }
        } else {
            self
        }
    }

    /// A fresh, disabled clock anchored at the given counter reading.
    pub fn new(count_per_tick: i64, force_tick_threshold: u64, now: i64) -> (c: Self)
        requires
            0 < count_per_tick <= COUNT_PER_TICK_MAX,
            -COUNT_BOUND <= now <= COUNT_BOUND,
        ensures
            c.wf(),
            !c.enabled,
            c.tick == 0,
            c.alarm == 0,
            c.base_count == now,
            c.offset == 0,
            c.count_per_tick == count_per_tick,
            c.force_tick_threshold == force_tick_threshold,
    {
        VirtualClock {
            enabled: false,
            tick: 0,
            base_count: now,
            offset: 0,
            count_per_tick,
            alarm: 0,
            force_tick_threshold,
        }
    }

    proof fn lemma_tick_times_cpt_bounded(self)
        requires
            self.wf(),
        ensures
            0 <= self.tick * self.count_per_tick <= TICK_MAX * COUNT_PER_TICK_MAX,
    {
        vstd::arithmetic::mul::lemma_mul_nonnegative(self.tick as int, self.count_per_tick as int);
        vstd::arithmetic::mul::lemma_mul_upper_bound(
            self.tick as int,
            TICK_MAX as int,
            self.count_per_tick as int,
            COUNT_PER_TICK_MAX as int,
        );
    }

    /// Answer a time query against the counter reading `now`.
    ///
    /// While enabled the result ignores `now` entirely; the alarm
    /// counter advances and may force one tick.  While disabled the
    /// result is `now` plus the continuity offset, and `now` is recorded
    /// as the anchor for the next enabled period.
    pub fn query(&mut self, now: i64) -> (t: i64)
        requires
            old(self).wf(),
            old(self).tick < TICK_MAX,
            -COUNT_BOUND <= now <= COUNT_BOUND,
        ensures
            final(self).wf(),
            old(self).enabled ==> {
                &&& *final(self) == old(self).query_step()
                &&& t == final(self).enabled_time()
            },
            !old(self).enabled ==> {
                &&& *final(self) == (VirtualClock { base_count: now, ..*old(self) })
                &&& t == old(self).disabled_time(now as int)
            },
    {
        proof {
            old(self).lemma_tick_times_cpt_bounded();
        }
        if self.enabled {
            if self.alarm >= self.force_tick_threshold {
                self.alarm = 0;
                self.tick = self.tick + 1;
            } else {
                self.alarm = self.alarm + 1;
            }
            proof {
                self.lemma_tick_times_cpt_bounded();
            }
            self.base_count + self.tick * self.count_per_tick
        } else {
            let t = now + self.offset + self.tick * self.count_per_tick;
            self.base_count = now;
            t
        }
    }

    /// Record one completed capture event.
    ///
    /// The first event switches the clock to its enabled regime without
    /// moving it; each further event advances the timeline by exactly one
    /// tick and clears the force-tick alarm.
    pub fn incr_tick(&mut self)
        requires
            old(self).wf(),
            old(self).tick < TICK_MAX,
        ensures
            final(self).wf(),
            *final(self) == old(self).tick_step(),
            final(self).enabled,
            old(self).enabled ==> final(self).enabled_time() == old(self).enabled_time()
                + old(self).count_per_tick,
    {
        if !self.enabled {
            self.enabled = true;
        } else {
            self.alarm = 0;
            self.tick = self.tick + 1;
        }
        proof {
            vstd::arithmetic::mul::lemma_mul_is_distributive_add_other_way(
                self.count_per_tick as int,
                old(self).tick as int,
                1,
            );
        }
    }

    /// Switch back to real time when the last capture target goes away.
    ///
    /// The offset is chosen so that a query issued at the same instant
    /// reports exactly the value the enabled clock was reporting: the
    /// host never sees the timeline jump.  The anchor was itself read
    /// from the real counter, which never runs backwards, so the
    /// counter has reached it by now and the offset comes out
    /// non-positive — which is what keeps later readings from dipping
    /// under earlier ones.
    pub fn pause(&mut self, real_now: i64)
        requires
            old(self).wf(),
            old(self).base_count <= real_now,
            -COUNT_BOUND <= real_now <= COUNT_BOUND,
        ensures
            final(self).wf(),
            *final(self) == old(self).pause_step(real_now as int),
            !final(self).enabled,
    {
        if self.enabled {
            self.offset = self.base_count - real_now;
            self.enabled = false;
        }
    }
}

/// Milliseconds of a counter reading: whole elapsed seconds at the
/// counter's frequency, scaled to milliseconds.  This is what the
/// coarse tick-count queries report, derived from the same virtual
/// counter so every timing surface tells one story.
pub fn counter_to_millis(count: i64, freq: i64) -> (ms: i64)
    requires
        0 <= count,
        1 <= freq,
        count / freq <= 0x20_0000_0000_0000,
    ensures
        ms == count / freq * 1000,
{
    let q = count / freq;
    q * 1000
}

/// A millisecond reading truncated to the 32-bit surface some queries
/// report through.
pub fn millis_truncated(ms: i64) -> (r: u32)
    requires
        0 <= ms,
    ensures
        r == ms % 0x1_0000_0000,
{
    (ms % 0x1_0000_0000) as u32
}

/// The clock state after `n` capture events.
pub open spec fn ticks_n(c: VirtualClock, n: nat) -> VirtualClock
    decreases n,
{
    if n == 0 {
        c
    } else {
        ticks_n(c, (n - 1) as nat).tick_step()
    }
}

/// The clock state after `n` enabled-mode time queries.
pub open spec fn queries_n(c: VirtualClock, n: nat) -> VirtualClock
    decreases n,
{
    if n == 0 {
        c
    } else {
        queries_n(c, (n - 1) as nat).query_step()
    }
}

/// While the clock is enabled, `n` capture events move the reported time
/// forward by exactly `n` times the configured counts-per-tick, no matter
/// how much real time passes between them: the enabled reading never
/// mentions a counter value.
pub proof fn lemma_ticks_advance_time(c: VirtualClock, n: nat)
    requires
        c.wf(),
        c.enabled,
        c.tick + n <= TICK_MAX,
    ensures
        ticks_n(c, n).wf(),
        ticks_n(c, n).enabled,
        ticks_n(c, n).tick == c.tick + n,
        ticks_n(c, n).enabled_time() == c.enabled_time() + n * c.count_per_tick,
        ticks_n(c, n).count_per_tick == c.count_per_tick,
        ticks_n(c, n).base_count == c.base_count,
    decreases n,
{
    if n > 0 {
        lemma_ticks_advance_time(c, (n - 1) as nat);
        let prev = ticks_n(c, (n - 1) as nat);
        assert(ticks_n(c, n) == prev.tick_step());
        vstd::arithmetic::mul::lemma_mul_is_distributive_add_other_way(
            prev.count_per_tick as int,
            prev.tick as int,
            1,
        );
        vstd::arithmetic::mul::lemma_mul_is_distributive_add_other_way(
            c.count_per_tick as int,
            (n - 1) as int,
            1,
        );
    } else {
        vstd::arithmetic::mul::lemma_mul_basics(c.count_per_tick as int);
    }
}

/// The reported time never moves backwards while the clock is enabled:
/// a capture tick and a time query (forced tick included) each leave
/// the enabled reading where it was or ahead of it.
pub proof fn lemma_enabled_time_monotone(c: VirtualClock)
    requires
        c.wf(),
        c.enabled,
        c.tick < TICK_MAX,
    ensures
        c.tick_step().enabled_time() >= c.enabled_time(),
        c.query_step().enabled_time() >= c.enabled_time(),
{
    vstd::arithmetic::mul::lemma_mul_is_distributive_add_other_way(
        c.count_per_tick as int,
        c.tick as int,
        1,
    );
}

/// Reported time is monotonically non-decreasing across mode changes
/// too.  Disabled readings grow with real time; and since every
/// disabled query re-anchors `base_count` at the counter value it
/// answered, the reading that precedes a re-enabling capture event is
/// `disabled_time(base_count)` — never above the enabled reading the
/// event switches to, because the offset is never positive.
pub proof fn lemma_reading_monotone_across_modes(c: VirtualClock, now1: int, now2: int)
    requires
        c.wf(),
        !c.enabled,
        now1 <= now2,
    ensures
        c.disabled_time(now1) <= c.disabled_time(now2),
        c.tick_step().enabled_time() >= c.disabled_time(c.base_count as int),
{
}

/// The enabled/disabled boundary is continuous: right after capture ends,
/// a query made at the very counter reading that ended it reports exactly
/// the value the enabled clock was reporting.  The host sees no jump.
pub proof fn lemma_pause_is_continuous(c: VirtualClock, real_now: int)
    requires
        c.wf(),
        c.enabled,
        -COUNT_BOUND <= real_now <= COUNT_BOUND,
    ensures
        c.pause_step(real_now).disabled_time(real_now) == c.enabled_time(),
{
}

/// The force-tick valve is exact: starting from a cleared alarm, a run of
/// consecutive queries no longer than the threshold forces no tick, and a
/// run one longer forces exactly one.
pub proof fn lemma_force_tick_threshold(c: VirtualClock, k: nat)
    requires
        c.wf(),
        c.alarm == 0,
        c.tick < TICK_MAX,
        k <= c.force_tick_threshold + 1,
    ensures
        queries_n(c, k).force_tick_threshold == c.force_tick_threshold,
        k <= c.force_tick_threshold ==> {
            &&& queries_n(c, k).tick == c.tick
            &&& queries_n(c, k).alarm == k
        },
        k == c.force_tick_threshold + 1 ==> {
            &&& queries_n(c, k).tick == c.tick + 1
            &&& queries_n(c, k).alarm == 0
        },
    decreases k,
{
    if k > 0 {
        lemma_force_tick_threshold(c, (k - 1) as nat);
        let prev = queries_n(c, (k - 1) as nat);
        assert(queries_n(c, k) == prev.query_step());
        if k <= c.force_tick_threshold {
            assert(prev.alarm == k - 1 && prev.tick == c.tick);
            assert(prev.alarm < prev.force_tick_threshold);
            assert(prev.query_step().alarm == k);
        } else {
            assert(prev.alarm == c.force_tick_threshold && prev.tick == c.tick);
            assert(prev.query_step().tick == c.tick + 1);
        }
    }
}

} // verus!
