//! Elapsed-time accumulators. Time is counted in whole microseconds.

use vstd::prelude::*;

verus! {

/// Microseconds in one second.
pub const MICROS_PER_SECOND: u64 = 1_000_000;

/// The length of the step of a simulation that runs at sixty steps a second.
pub const TIME_STEP: u64 = 16_667;

/// The longest step by which entities can be moved at once.
pub const MAX_STEP: u64 = 1_000_000;

/// Accumulates elapsed time and reports when `duration` has been reached.
///
/// A one-shot timer stops at `duration` and stays finished. A repeating timer
/// wraps around and is finished only on the tick on which it wrapped.
#[derive(Clone, Copy, Debug, PartialEq, Eq, Structural)]
pub struct Timer {
    pub elapsed: u64,
    pub duration: u64,
    pub repeating: bool,
    pub finished: bool,
}

impl Timer {
    /// The accumulated time has not passed the duration, and a repeating
    /// timer has a positive period that it stays below.
    pub open spec fn valid(self) -> bool {
        &&& self.elapsed <= self.duration
        &&& self.repeating ==> self.elapsed < self.duration
    }

    /// A timer at rest: nothing elapsed, not finished.
    pub open spec fn fresh(duration: u64, repeating: bool) -> Timer {
        Timer { elapsed: 0, duration, repeating, finished: false }
    }

    /// The timer after `delta` more microseconds.
    pub open spec fn ticked(self, delta: u64) -> Timer {
        if !self.repeating && self.finished {
            self
        } else if self.elapsed + delta >= self.duration {
            if self.repeating {
                Timer {
                    elapsed: ((self.elapsed + delta) % (self.duration as int)) as u64,
                    finished: true,
                    ..self
                }
            } else {
                Timer { elapsed: self.duration, finished: true, ..self }
            }
        } else {
            Timer { elapsed: (self.elapsed + delta) as u64, finished: false, ..self }
        }
    }

    /// A timer at rest. A repeating timer needs a positive period.
    pub fn new(duration: u64, repeating: bool) -> (t: Timer)
        requires
            repeating ==> duration > 0,
        ensures
            t == Timer::fresh(duration, repeating),
            t.valid(),
    {
        Timer { elapsed: 0, duration, repeating, finished: false }
    }

    /// Decides `valid`.
    pub fn is_valid(&self) -> (ok: bool)
        ensures
            ok == self.valid(),
    {
        self.elapsed <= self.duration && (!self.repeating || self.elapsed < self.duration)
    }

    /// Advances the timer by `delta` microseconds.
    pub fn tick(&mut self, delta: u64)
        requires
            old(self).valid(),
        ensures
            *final(self) == old(self).ticked(delta),
            final(self).valid(),
    {
        if !self.repeating && self.finished {
            return ;
        }
        let total: u128 = (self.elapsed as u128) + (delta as u128);
        if total >= self.duration as u128 {
            if self.repeating {
                let wrapped: u128 = total % (self.duration as u128);
                self.elapsed = wrapped as u64;
            } else {
                self.elapsed = self.duration;
            }
            self.finished = true;
        } else {
            self.elapsed = total as u64;
            self.finished = false;
        }
    }

    /// Whether the duration was reached (for a repeating timer: on the last tick).
    pub fn finished(&self) -> (done: bool)
        ensures
            done == self.finished,
    {
        self.finished
    }
}

/// A valid timer stays valid however long it runs.
pub proof fn lemma_ticked_is_valid(t: Timer, delta: u64)
    requires
        t.valid(),
    ensures
        t.ticked(delta).valid(),
        t.ticked(delta).duration == t.duration,
        t.ticked(delta).repeating == t.repeating,
{
    if t.repeating {
        let total = t.elapsed + delta;
        let period = t.duration as int;
        assert(0 <= total % period < period) by (nonlinear_arith)
            requires
                0 <= total,
                0 < period,
        ;
    }
}

} // verus!
