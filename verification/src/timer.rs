use vstd::prelude::*;

verus! {

/// A repeating interval timer, measured in milliseconds.
///
/// The timer accumulates elapsed frame time and reports a completed period at
/// most once per tick, however much time passed (no catch-up): on firing, the
/// accumulated time wraps modulo the period.
pub struct RepeatingTimer {
    elapsed_ms: u64,
    period_ms: u64,
}

impl RepeatingTimer {
    /// Well-formed: the period is positive and the accumulated time has not yet
    /// reached it.
    pub closed spec fn wf(self) -> bool {
        0 < self.period_ms && self.elapsed_ms < self.period_ms
    }

    /// The period, in milliseconds.
    pub closed spec fn period(self) -> u64 {
        self.period_ms
    }

    /// Time accumulated since the last completed period, in milliseconds.
    pub closed spec fn elapsed(self) -> u64 {
        self.elapsed_ms
    }

    /// Read the accumulated time, in milliseconds.
    pub fn elapsed_millis(&self) -> (e: u64)
        ensures
            e == self.elapsed(),
    {
        self.elapsed_ms
    }

    /// Read the period, in milliseconds.
    pub fn period_millis(&self) -> (p: u64)
        ensures
            p == self.period(),
    {
        self.period_ms
    }

    pub fn new(period_ms: u64) -> (t: Self)
        requires
            0 < period_ms,
        ensures
            t.wf(),
            t.period() == period_ms,
            t.elapsed() == 0,
    {
        RepeatingTimer { elapsed_ms: 0, period_ms }
    }

    /// Advance the timer by one frame's elapsed time.  Returns true iff a period
    /// completed since the last tick; it fires at most once per tick regardless
    /// of how many periods elapsed.
    pub fn tick(&mut self, delta_ms: u64) -> (fired: bool)
        requires
            old(self).wf(),
            old(self).elapsed() + delta_ms <= u64::MAX,
        ensures
            final(self).wf(),
            final(self).period() == old(self).period(),
            fired == (old(self).elapsed() + delta_ms >= old(self).period()),
            fired ==> final(self).elapsed()
                == (old(self).elapsed() + delta_ms) % (old(self).period() as int),
            !fired ==> final(self).elapsed() == old(self).elapsed() + delta_ms,
    {
        let total = self.elapsed_ms + delta_ms;
        if total >= self.period_ms {
            self.elapsed_ms = total % self.period_ms;
            true
        } else {
            self.elapsed_ms = total;
            false
        }
    }
}

} // verus!
