use vstd::prelude::*;
use crate::spawner::SpawnController;

verus! {

/// Rate adjustment step: 500 per second of held key, before scaling by the
/// frame's elapsed time.
pub const SPAWNING_RATE_STEP: u32 = 500;

/// The rate change one frame contributes for a held key: `step` per second,
/// scaled by `delta_ms` milliseconds and rounded half away from zero (both
/// factors are non-negative, so this is rounding half up).
pub open spec fn spec_rate_delta(step: int, delta_ms: int) -> int {
    (2 * step * delta_ms + 1000) / 2000
}

/// Compute the rounded per-frame rate change for a held key.
pub fn rate_delta(step: u32, delta_ms: u64) -> (d: u64)
    requires
        2 * step * delta_ms + 1000 <= u64::MAX,
    ensures
        d == spec_rate_delta(step as int, delta_ms as int),
{
    (2 * (step as u64) * delta_ms + 1000) / 2000
}

/// The rate after one frame of key input: an "increase" key adds the delta, a
/// "decrease" key subtracts it flooring at zero, and both apply independently
/// in the same tick (increase first, then decrease).
pub open spec fn adjusted_rate(rate: int, increase_held: bool, decrease_held: bool, delta: int) -> int {
    let up = if increase_held {
        rate + delta
    } else {
        rate
    };
    if decrease_held {
        if up >= delta {
            up - delta
        } else {
            0
        }
    } else {
        up
    }
}

impl SpawnController {
    /// One frame of the rate input handler: read the two sustained key states
    /// and adjust the spawn rate by the rounded step for this frame's elapsed
    /// time.  Decreasing saturates at zero; holding both keys at once applies
    /// both deltas independently, so they cancel exactly.  The timer is not
    /// touched.
    pub fn apply_input(&mut self, increase_held: bool, decrease_held: bool, delta_ms: u64)
        requires
            2 * SPAWNING_RATE_STEP * delta_ms + 1000 <= u64::MAX,
            increase_held ==> old(self).spawning_rate + spec_rate_delta(
                SPAWNING_RATE_STEP as int,
                delta_ms as int,
            ) <= u32::MAX,
        ensures
            final(self).timer == old(self).timer,
            final(self).spawning_rate == adjusted_rate(
                old(self).spawning_rate as int,
                increase_held,
                decrease_held,
                spec_rate_delta(SPAWNING_RATE_STEP as int, delta_ms as int),
            ),
            (increase_held && decrease_held) ==> final(self).spawning_rate == old(
                self,
            ).spawning_rate,
            (!increase_held && !decrease_held) ==> final(self).spawning_rate == old(
                self,
            ).spawning_rate,
            (decrease_held && !increase_held && spec_rate_delta(
                SPAWNING_RATE_STEP as int,
                delta_ms as int,
            ) >= old(self).spawning_rate) ==> final(self).spawning_rate == 0,
    {
        let d = rate_delta(SPAWNING_RATE_STEP, delta_ms);
        if increase_held {
            self.spawning_rate = self.spawning_rate + (d as u32);
        }
        if decrease_held {
            if (self.spawning_rate as u64) >= d {
                self.spawning_rate = self.spawning_rate - (d as u32);
            } else {
                self.spawning_rate = 0;
            }
        }
    }
}

} // verus!
