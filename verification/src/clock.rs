//! Fixed-timestep frame clock.
//!
//! The clock decouples the variable wall-clock arrival of frames from a
//! deterministic simulation step rate. Each tick it credits the elapsed wall
//! time (clamped to a cap) to an accumulator, then drains the accumulator in
//! whole steps: one game update is owed per drained step. If a single tick
//! would owe more than [`MAX_STEPS_PER_TICK`] updates (after a stall such as a
//! debugger pause), the accumulator is reset to zero instead of catching up,
//! trading simulation continuity for freedom from runaway catch-up loops.
//!
//! All times are in microseconds.

use vstd::prelude::*;
use vstd::arithmetic::div_mod::{
    lemma_div_is_ordered, lemma_div_multiples_vanish, lemma_fundamental_div_mod,
    lemma_fundamental_div_mod_converse, lemma_mod_bound,
};

verus! {

/// Default length of one fixed simulation step: 1/60 of a second, in microseconds.
pub const DEFAULT_STEP_MICROS: u64 = 16667;

/// Default upper bound on the wall time credited to a single tick: 0.25 s, in microseconds.
pub const DEFAULT_CAP_MICROS: u64 = 250000;

/// Largest step length and cap the clock accepts, in microseconds (about 268 s).
/// Keeping both small makes every accumulation visibly free of overflow.
pub const MAX_TIMING_MICROS: u64 = 0x1000_0000;

/// Most fixed steps drained in one tick before the clock stops catching up.
pub const MAX_STEPS_PER_TICK: u64 = 10;

/// Simulation pacing state: the wall-clock instant of the previous tick (none
/// before the first), leftover simulated time not yet consumed by a fixed
/// step, and the configured step and cap lengths.
pub struct FrameClock {
    /// Wall time of the end of the previous tick, in microseconds; `None` before any tick.
    pub last_update: Option<u64>,
    /// Simulated time credited but not yet consumed by a fixed step, in microseconds.
    pub accumulator: u64,
    /// Length of one fixed simulation step, in microseconds.
    pub step: u64,
    /// Upper bound on the wall time credited per tick, in microseconds.
    pub cap: u64,
}

impl FrameClock {
    /// Well-formedness: a positive, bounded step; a bounded cap; and an
    /// accumulator strictly below one step, which every tick re-establishes.
    pub open spec fn wf(&self) -> bool {
        &&& 0 < self.step <= MAX_TIMING_MICROS
        &&& self.cap <= MAX_TIMING_MICROS
        &&& self.accumulator < self.step
    }

    /// Wall time credited to a tick at instant `now`: zero before the first
    /// tick or if the clock went backwards, otherwise the time since the
    /// previous tick clamped to the cap.
    pub open spec fn elapsed_spec(&self, now: u64) -> int {
        match self.last_update {
            None => 0,
            Some(last) => if now <= last {
                0
            } else if now - last > self.cap {
                self.cap as int
            } else {
                now - last
            },
        }
    }

    /// The accumulator right before the drain loop of a tick at `now`.
    pub open spec fn pending_spec(&self, now: u64) -> int {
        self.accumulator + self.elapsed_spec(now)
    }

    /// Number of whole steps the pending time covers.
    pub open spec fn owed_steps_spec(&self, now: u64) -> int {
        self.pending_spec(now) / (self.step as int)
    }

    /// Number of updates a tick at `now` runs: the owed steps, capped.
    pub open spec fn updates_spec(&self, now: u64) -> int {
        if self.owed_steps_spec(now) > MAX_STEPS_PER_TICK {
            MAX_STEPS_PER_TICK as int
        } else {
            self.owed_steps_spec(now)
        }
    }

    /// The accumulator a tick at `now` leaves behind: the remainder of the
    /// drain, or exactly zero when the owed steps exceeded the cap.
    pub open spec fn accumulator_after_spec(&self, now: u64) -> int {
        if self.owed_steps_spec(now) > MAX_STEPS_PER_TICK {
            0
        } else {
            self.pending_spec(now) - self.owed_steps_spec(now) * self.step
        }
    }

    /// The whole clock state a tick at `now` leaves behind.
    pub open spec fn spec_tick(&self, now: u64) -> FrameClock {
        FrameClock {
            last_update: Some(now),
            accumulator: self.accumulator_after_spec(now) as u64,
            step: self.step,
            cap: self.cap,
        }
    }

    /// A clock with the default step (1/60 s) and cap (0.25 s), no tick yet taken.
    pub fn new() -> (clock: FrameClock)
        ensures
            clock.wf(),
            clock.last_update is None,
            clock.accumulator == 0,
            clock.step == DEFAULT_STEP_MICROS,
            clock.cap == DEFAULT_CAP_MICROS,
    {
        FrameClock {
            last_update: None,
            accumulator: 0,
            step: DEFAULT_STEP_MICROS,
            cap: DEFAULT_CAP_MICROS,
        }
    }

    /// A clock with an explicit step and cap, no tick yet taken.
    pub fn with_timing(step_micros: u64, cap_micros: u64) -> (clock: FrameClock)
        requires
            0 < step_micros <= MAX_TIMING_MICROS,
            cap_micros <= MAX_TIMING_MICROS,
        ensures
            clock.wf(),
            clock.last_update is None,
            clock.accumulator == 0,
            clock.step == step_micros,
            clock.cap == cap_micros,
    {
        FrameClock {
            last_update: None,
            accumulator: 0,
            step: step_micros,
            cap: cap_micros,
        }
    }

    /// Marks `now` as the previous tick instant without draining anything, so
    /// that time spent before the loop begins is not credited to the first tick.
    pub fn start(&mut self, now_micros: u64)
        ensures
            *final(self) == (FrameClock { last_update: Some(now_micros), ..*old(self) }),
    {
        self.last_update = Some(now_micros);
    }

    /// One tick at wall time `now_micros`: credits the clamped elapsed time,
    /// drains whole steps, and reports how many updates to run.
    ///
    /// The count equals the owed steps `floor(pending / step)` capped at
    /// [`MAX_STEPS_PER_TICK`]; when the cap bites, the leftover accumulator is
    /// discarded entirely. The accumulator never goes negative and always ends
    /// below one step.
    ///
    /// `now_micros` itself becomes the new `last_update`, so time the caller
    /// spends running updates and draws after reading the clock is excluded
    /// from the next tick's delta; otherwise simulation speed would couple to
    /// render cost.
    pub fn tick(&mut self, now_micros: u64) -> (updates: u64)
        requires
            old(self).wf(),
        ensures
            final(self).wf(),
            *final(self) == old(self).spec_tick(now_micros),
            updates == old(self).updates_spec(now_micros),
            final(self).accumulator == old(self).accumulator_after_spec(now_micros),
            final(self).accumulator < final(self).step,
            final(self).last_update == Some(now_micros),
            final(self).step == old(self).step,
            final(self).cap == old(self).cap,
    {
        let elapsed: u64 = match self.last_update {
            None => 0,
            Some(last) => {
                let raw = if now_micros >= last {
                    now_micros - last
                } else {
                    0
                };
                if raw > self.cap {
                    self.cap
                } else {
                    raw
                }
            },
        };
        self.accumulator = self.accumulator + elapsed;

        let ghost pending = old(self).pending_spec(now_micros);
        let ghost step = self.step as int;

        let mut updates: u64 = 0;
        while self.accumulator >= self.step && updates < MAX_STEPS_PER_TICK
            invariant
                self.step == old(self).step,
                self.cap == old(self).cap,
                self.last_update == old(self).last_update,
                old(self).wf(),
                step == self.step as int,
                pending == old(self).pending_spec(now_micros),
                updates <= MAX_STEPS_PER_TICK,
                self.accumulator == pending - updates * step,
            decreases MAX_STEPS_PER_TICK - updates,
        {
            proof {
                assert((updates + 1) * step == updates * step + step) by (nonlinear_arith);
            }
            self.accumulator = self.accumulator - self.step;
            updates = updates + 1;
        }

        proof {
            if self.accumulator < self.step {
                // The drain ran to completion: `updates` is the exact quotient.
                lemma_fundamental_div_mod_converse(
                    pending,
                    step,
                    updates as int,
                    self.accumulator as int,
                );
                assert(old(self).owed_steps_spec(now_micros) == updates);
            } else {
                // The drain stopped at the cap with at least one step left over,
                // so the owed count exceeds the cap.
                assert(updates == MAX_STEPS_PER_TICK);
                assert(pending >= (MAX_STEPS_PER_TICK + 1) * step) by (nonlinear_arith)
                    requires
                        self.accumulator >= step,
                        self.accumulator == pending - MAX_STEPS_PER_TICK * step,
                {}
                lemma_div_is_ordered((MAX_STEPS_PER_TICK + 1) * step, pending, step);
                lemma_div_multiples_vanish(MAX_STEPS_PER_TICK + 1, step);
                assert(old(self).owed_steps_spec(now_micros) > MAX_STEPS_PER_TICK);
            }
        }

        if self.accumulator >= self.step {
            self.accumulator = 0;
        }
        self.last_update = Some(now_micros);
        updates
    }
}

/// The clock state after a whole sequence of ticks, latest instant last.
pub open spec fn spec_run(clock: FrameClock, instants: Seq<u64>) -> FrameClock
    decreases instants.len(),
{
    if instants.len() == 0 {
        clock
    } else {
        spec_run(clock, instants.drop_last()).spec_tick(instants.last())
    }
}

/// One tick from a well-formed clock leaves a well-formed clock; in
/// particular the accumulator stays nonnegative and below one step.
pub proof fn lemma_tick_preserves_wf(clock: FrameClock, now: u64)
    requires
        clock.wf(),
    ensures
        clock.spec_tick(now).wf(),
{
    let pending = clock.pending_spec(now);
    let step = clock.step as int;
    lemma_fundamental_div_mod(pending, step);
    lemma_mod_bound(pending, step);
}

/// For every sequence of tick instants, and so for every sequence of elapsed
/// wall times, a well-formed clock stays well formed: after every tick the
/// accumulator is nonnegative and below one step.
pub proof fn lemma_run_preserves_wf(clock: FrameClock, instants: Seq<u64>)
    requires
        clock.wf(),
    ensures
        spec_run(clock, instants).wf(),
        spec_run(clock, instants).accumulator >= 0,
    decreases instants.len(),
{
    if instants.len() > 0 {
        lemma_run_preserves_wf(clock, instants.drop_last());
        lemma_tick_preserves_wf(spec_run(clock, instants.drop_last()), instants.last());
    }
}

} // verus!
