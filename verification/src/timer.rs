//! A repeating timer over integer microseconds: elapsed time accumulates
//! tick by tick and wraps each time the repeat interval completes.
use vstd::prelude::*;

verus! {

/// A repeating timer. The invariant keeps the stored elapsed time
/// strictly inside the current interval, so a completion is reported
/// exactly once.
#[derive(Clone, Copy, Debug, PartialEq, Eq, Structural)]
pub struct RepeatingTimer {
    /// The repeat interval, in microseconds; always positive.
    pub duration_us: u64,
    /// Time accrued inside the current interval; always below the
    /// interval.
    pub elapsed_us: u64,
}

impl RepeatingTimer {
    /// The timer's internal invariant.
    pub open spec fn wf(self) -> bool {
        0 < self.duration_us && self.elapsed_us < self.duration_us
    }

    /// A fresh timer with the given repeat interval and nothing accrued.
    pub fn new(duration_us: u64) -> (r: RepeatingTimer)
        requires
            0 < duration_us,
        ensures
            r.wf(),
            r.duration_us == duration_us,
            r.elapsed_us == 0,
    {
        RepeatingTimer { duration_us, elapsed_us: 0 }
    }

    /// Advances the timer by the elapsed time of one tick; returns whether
    /// the repeat interval completed at least once during this tick. The
    /// accrued time wraps modulo the interval, so repeated short ticks
    /// complete exactly once per interval's worth of time.
    pub fn tick(&mut self, delta_us: u64) -> (finished: bool)
        requires
            old(self).wf(),
            old(self).elapsed_us + delta_us <= u64::MAX,
        ensures
            final(self).wf(),
            final(self).duration_us == old(self).duration_us,
            finished == (old(self).elapsed_us + delta_us >= old(self).duration_us),
            final(self).elapsed_us == (old(self).elapsed_us + delta_us) as u64
                % old(self).duration_us,
    {
        let total = self.elapsed_us + delta_us;
        if total >= self.duration_us {
            self.elapsed_us = total % self.duration_us;
            true
        } else {
            proof {
                vstd::arithmetic::div_mod::lemma_small_mod(total as nat, self.duration_us as nat);
            }
            self.elapsed_us = total;
            false
        }
    }

    /// Drops any accrued time, keeping the interval.
    pub fn reset(&mut self)
        requires
            old(self).wf(),
        ensures
            final(self).wf(),
            final(self).duration_us == old(self).duration_us,
            final(self).elapsed_us == 0,
    {
        self.elapsed_us = 0;
    }
}

} // verus!
