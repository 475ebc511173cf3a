//! The daily trigger: wall-clock arithmetic and the scheduler state machine.
//!
//! Time is measured in whole seconds of the operator's local calendar, so
//! that local midnight falls exactly on a multiple of [`SECONDS_PER_DAY`].
//! The scheduler alternates between two phases: `Waiting`, asleep until a
//! stored trigger time (the next local midnight), and `Dispatching`, while
//! one delivery cycle runs.  After every cycle the trigger is recomputed
//! from the current clock — never by adding a fixed 24-hour offset to the
//! previous trigger — so time spent dispatching cannot accumulate drift.

use vstd::prelude::*;

verus! {

/// Number of seconds in one calendar day.
pub const SECONDS_PER_DAY: u64 = 86400;

/// The latest timestamp the scheduler accepts: room is left to step one
/// whole day forward without overflowing `u64`.
pub const MAX_TIMESTAMP: u64 = u64::MAX - 86400;

/// A timestamp lies exactly on a local-calendar-day boundary.
pub open spec fn is_midnight(t: int) -> bool {
    t % (SECONDS_PER_DAY as int) == 0
}

/// The next local midnight strictly after `t`.
pub open spec fn next_midnight(t: int) -> int {
    t - t % (SECONDS_PER_DAY as int) + SECONDS_PER_DAY as int
}

/// Seconds left from `now` until `target`; zero once `target` has passed.
pub open spec fn sleep_secs(now: int, target: int) -> int {
    if now >= target {
        0
    } else {
        target - now
    }
}

/// The next midnight is a midnight, lies strictly in the future, and is
/// at most one whole day away.
pub proof fn lemma_next_midnight_bounds(t: int)
    requires
        t >= 0,
    ensures
        is_midnight(next_midnight(t)),
        t < next_midnight(t) <= t + SECONDS_PER_DAY as int,
{
    let d = SECONDS_PER_DAY as int;
    vstd::arithmetic::div_mod::lemma_mod_bound(t, d);
    vstd::arithmetic::div_mod::lemma_fundamental_div_mod(t, d);
    vstd::arithmetic::div_mod::lemma_mod_multiples_basic(t / d, d);
    vstd::arithmetic::div_mod::lemma_mod_add_multiples_vanish(t - t % d, d);
}

/// Computes the next local midnight strictly after `now`.
pub fn next_midnight_after(now: u64) -> (r: u64)
    requires
        now <= MAX_TIMESTAMP,
    ensures
        r as int == next_midnight(now as int),
        is_midnight(r as int),
        now < r <= now + SECONDS_PER_DAY,
{
    proof {
        lemma_next_midnight_bounds(now as int);
    }
    let rem: u64 = now % SECONDS_PER_DAY;
    now - rem + SECONDS_PER_DAY
}

/// Computes the seconds to sleep from `now` until `target`.  A target
/// already reached or passed yields zero, never an error: a late clock
/// reading is treated as "fire immediately", not as a failure.
pub fn sleep_duration(now: u64, target: u64) -> (d: u64)
    ensures
        d as int == sleep_secs(now as int, target as int),
{
    if now >= target {
        0
    } else {
        target - now
    }
}

/// Sleeping for the computed duration lands exactly on the next local
/// midnight.  For any wall-clock instant `t` read after the trigger was
/// computed (at `t0`) and before it fires, `t` plus the remaining sleep
/// equals the next local midnight after `t`, to the second — however
/// long the cycle before the computation ran.
pub proof fn lemma_sleep_lands_on_midnight(t0: int, t: int)
    requires
        0 <= t0 <= t,
        t < next_midnight(t0),
    ensures
        t + sleep_secs(t, next_midnight(t0)) == next_midnight(t),
        is_midnight(t + sleep_secs(t, next_midnight(t0))),
{
    let d = SECONDS_PER_DAY as int;
    lemma_next_midnight_bounds(t0);
    let m = next_midnight(t0);
    assert(m - d <= t0 <= t < m);
    vstd::arithmetic::div_mod::lemma_fundamental_div_mod(m, d);
    let q = m / d;
    assert(m == d * q);
    assert(t == (q - 1) * d + (t - (m - d))) by {
        vstd::arithmetic::mul::lemma_mul_is_distributive_sub_other_way(d, q, 1);
    }
    vstd::arithmetic::div_mod::lemma_fundamental_div_mod_converse(t, d, q - 1, t - (m - d));
    assert(t % d == t - (m - d));
    assert(next_midnight(t) == m);
}

/// After a cycle fires at or past its trigger (a midnight), the trigger
/// recomputed from the current clock lies at least one full day later:
/// the scheduler triggers at most one cycle per calendar day.
pub proof fn lemma_at_most_one_cycle_per_day(trigger: int, now: int)
    requires
        0 <= trigger <= now,
        is_midnight(trigger),
    ensures
        next_midnight(now) >= trigger + SECONDS_PER_DAY as int,
{
    let d = SECONDS_PER_DAY as int;
    lemma_next_midnight_bounds(now);
    vstd::arithmetic::div_mod::lemma_fundamental_div_mod(now, d);
    vstd::arithmetic::div_mod::lemma_fundamental_div_mod(trigger, d);
    vstd::arithmetic::div_mod::lemma_div_is_ordered(trigger, now, d);
    vstd::arithmetic::mul::lemma_mul_inequality(trigger / d, now / d, d);
    assert(trigger == (trigger / d) * d);
    assert((now / d) * d == now - now % d);
    assert(next_midnight(now) == now - now % d + d);
}

/// The recomputed trigger is never more than one day away: a scheduler
/// that keeps running fires at least once in every 24-hour window.
pub proof fn lemma_no_day_without_cycle(now: int)
    requires
        now >= 0,
    ensures
        now < next_midnight(now) <= now + SECONDS_PER_DAY as int,
{
    lemma_next_midnight_bounds(now);
}

/// The scheduler's two phases.
#[derive(PartialEq, Eq, Structural, Clone, Copy, Debug)]
pub enum SchedulerPhase {
    /// Asleep until the stored trigger time.
    Waiting,
    /// One dispatch cycle is in progress.
    Dispatching,
}

/// The daily scheduler: a stored trigger time (always a local midnight)
/// and the phase it is in.  The surrounding process reads the clock,
/// sleeps for [`DailyScheduler::sleep_needed`] seconds, and reports the
/// phase changes; every decision about *when* is made and proved here.
pub struct DailyScheduler {
    phase: SchedulerPhase,
    trigger: u64,
}

impl DailyScheduler {
    /// The stored trigger is a local midnight in representable range.
    pub open spec fn wf(&self) -> bool {
        &&& is_midnight(self.spec_trigger() as int)
        &&& 0 < self.spec_trigger() <= MAX_TIMESTAMP + SECONDS_PER_DAY
    }

    pub closed spec fn spec_phase(&self) -> SchedulerPhase {
        self.phase
    }

    pub closed spec fn spec_trigger(&self) -> u64 {
        self.trigger
    }

    /// Starts waiting for the first trigger: local midnight of the next
    /// calendar day relative to `now`.
    pub fn new(now: u64) -> (s: Self)
        requires
            now <= MAX_TIMESTAMP,
        ensures
            s.wf(),
            s.spec_phase() == SchedulerPhase::Waiting,
            s.spec_trigger() as int == next_midnight(now as int),
    {
        let trigger = next_midnight_after(now);
        DailyScheduler { phase: SchedulerPhase::Waiting, trigger }
    }

    /// How long to sleep before the trigger fires, measured from `now`.
    pub fn sleep_needed(&self, now: u64) -> (d: u64)
        requires
            self.spec_phase() == SchedulerPhase::Waiting,
        ensures
            d as int == sleep_secs(now as int, self.spec_trigger() as int),
            d == 0 <==> now >= self.spec_trigger(),
    {
        sleep_duration(now, self.trigger)
    }

    /// The wall clock has reached (or passed) the trigger: one dispatch
    /// cycle begins.  The trigger is left untouched until the cycle ends.
    pub fn begin_dispatch(&mut self, now: u64)
        requires
            old(self).spec_phase() == SchedulerPhase::Waiting,
            now >= old(self).spec_trigger(),
        ensures
            final(self).spec_phase() == SchedulerPhase::Dispatching,
            final(self).spec_trigger() == old(self).spec_trigger(),
            old(self).wf() ==> final(self).wf(),
    {
        self.phase = SchedulerPhase::Dispatching;
    }

    /// The cycle has returned — whether it succeeded or failed makes no
    /// difference here.  The next trigger is recomputed as the next local
    /// midnight after the *current* clock, never by adding a fixed
    /// interval to the previous trigger, so cycle latency cannot drift
    /// the schedule.
    pub fn finish_dispatch(&mut self, now: u64)
        requires
            old(self).spec_phase() == SchedulerPhase::Dispatching,
            now <= MAX_TIMESTAMP,
        ensures
            final(self).wf(),
            final(self).spec_phase() == SchedulerPhase::Waiting,
            final(self).spec_trigger() as int == next_midnight(now as int),
    {
        self.trigger = next_midnight_after(now);
        self.phase = SchedulerPhase::Waiting;
    }
}

} // verus!
