//! Stage timers.
//!
//! Every behavior resets its timer's duration at the moment it changes
//! stage, so a timer always measures time spent in the current stage, never
//! wall-clock time. Ticking saturates instead of wrapping.

use vstd::prelude::*;

verus! {

/// A one-shot timer: `elapsed_us` accumulates tick deltas and the timer is
/// finished once it reaches `duration_us`. Both in microseconds.
#[derive(Clone, Copy, PartialEq, Eq, Structural, Debug)]
pub struct StageTimer {
    pub duration_us: u64,
    pub elapsed_us: u64,
}

/// The elapsed time after adding `delta` to `elapsed`, saturating.
pub open spec fn spec_elapsed_after(elapsed: u64, delta: u64) -> u64 {
    if elapsed + delta <= u64::MAX {
        (elapsed + delta) as u64
    } else {
        u64::MAX
    }
}

impl StageTimer {
    /// A fresh timer for `duration_us`, nothing elapsed.
    pub fn new(duration_us: u64) -> (r: StageTimer)
        ensures
            r.duration_us == duration_us,
            r.elapsed_us == 0,
    {
        StageTimer { duration_us, elapsed_us: 0 }
    }

    /// Replaces the duration; the elapsed time stays.
    pub fn set_duration(&mut self, duration_us: u64)
        ensures
            final(self).duration_us == duration_us,
            final(self).elapsed_us == old(self).elapsed_us,
    {
        self.duration_us = duration_us;
    }

    /// Starts the timer over.
    pub fn reset(&mut self)
        ensures
            final(self).duration_us == old(self).duration_us,
            final(self).elapsed_us == 0,
    {
        self.elapsed_us = 0;
    }

    /// Advances the timer by `delta_us` and reports whether it has
    /// finished.
    pub fn tick(&mut self, delta_us: u64) -> (finished: bool)
        ensures
            final(self).duration_us == old(self).duration_us,
            final(self).elapsed_us == spec_elapsed_after(old(self).elapsed_us, delta_us),
            finished == (final(self).elapsed_us >= final(self).duration_us),
    {
        if self.elapsed_us <= u64::MAX - delta_us {
            self.elapsed_us = self.elapsed_us + delta_us;
        } else {
            self.elapsed_us = u64::MAX;
        }
        self.elapsed_us >= self.duration_us
    }

    /// Whether the timer has finished.
    pub fn finished(&self) -> (r: bool)
        ensures
            r == (self.elapsed_us >= self.duration_us),
    {
        self.elapsed_us >= self.duration_us
    }
}

} // verus!
