use vstd::prelude::*;
use rand::Rng;
use crate::motion::{CUBE_SPEED, CUBE_X_RANGE, MovingCube, Position, SpawnedCube};
use crate::timer::RepeatingTimer;

verus! {

/// Spawn positions are drawn per axis from [-10, 10) world units: the bound, in
/// micro-units.
pub const SPAWN_COORD_BOUND: i64 = 10_000_000;

/// Spawn rate at startup, in cubes per timer period.
pub const INITIAL_SPAWNING_RATE: u32 = 100;

/// Period of the spawn timer, in milliseconds.
pub const SPAWN_PERIOD_MS: u64 = 1000;

/// Running total of cubes spawned since startup.  Monotonically non-decreasing:
/// only spawning ever touches it, once per spawned cube.
#[derive(Clone, Copy, Debug, PartialEq, Eq, Structural)]
pub struct CubesCounter {
    pub count: u32,
}

impl CubesCounter {
    pub fn new() -> (c: Self)
        ensures
            c.count == 0,
    {
        CubesCounter { count: 0 }
    }
}

/// Relies on rand::Rng::gen_range over a half-open integer range, with
/// rand::thread_rng as the generator: the sample lies in [lo, hi), and the call
/// panics only on an empty range.
#[verifier::external_body]
fn random_in(lo: i64, hi: i64) -> (r: i64)
    requires
        lo < hi,
    ensures
        lo <= r < hi,
{
    rand::thread_rng().gen_range(lo..hi)
}

/// What every freshly spawned cube looks like: the fixed speed and wrap bound,
/// and every position axis within the spawn range.
pub open spec fn fresh_cube_wf(c: SpawnedCube) -> bool {
    &&& c.motion.speed == CUBE_SPEED
    &&& c.motion.x_range == CUBE_X_RANGE
    &&& -SPAWN_COORD_BOUND <= c.position.x < SPAWN_COORD_BOUND
    &&& -SPAWN_COORD_BOUND <= c.position.y < SPAWN_COORD_BOUND
    &&& -SPAWN_COORD_BOUND <= c.position.z < SPAWN_COORD_BOUND
}

/// Spawn one cube at a position drawn independently per axis from the spawn
/// range, with the fixed speed and wrap bound.
pub fn spawn_one() -> (c: SpawnedCube)
    ensures
        fresh_cube_wf(c),
{
    let x = random_in(-SPAWN_COORD_BOUND, SPAWN_COORD_BOUND);
    let y = random_in(-SPAWN_COORD_BOUND, SPAWN_COORD_BOUND);
    let z = random_in(-SPAWN_COORD_BOUND, SPAWN_COORD_BOUND);
    SpawnedCube {
        motion: MovingCube { speed: CUBE_SPEED, x_range: CUBE_X_RANGE },
        position: Position { x, y, z },
    }
}

/// The spawn controller: a mutable spawn rate and a repeating interval timer.
/// Exactly one instance is expected per process; the host constructs it at
/// startup and passes it to each per-frame behavior.
pub struct SpawnController {
    pub spawning_rate: u32,
    pub timer: RepeatingTimer,
}

impl SpawnController {
    pub open spec fn wf(self) -> bool {
        self.timer.wf()
    }

    /// Whether advancing the timer by `delta_ms` completes its period.
    pub open spec fn fires(self, delta_ms: int) -> bool {
        self.timer.elapsed() + delta_ms >= self.timer.period()
    }

    pub fn new() -> (s: Self)
        ensures
            s.wf(),
            s.spawning_rate == INITIAL_SPAWNING_RATE,
            s.timer.period() == SPAWN_PERIOD_MS,
            s.timer.elapsed() == 0,
    {
        SpawnController {
            spawning_rate: INITIAL_SPAWNING_RATE,
            timer: RepeatingTimer::new(SPAWN_PERIOD_MS),
        }
    }

    /// One tick of the spawn controller: advance the timer by the frame's
    /// elapsed time; if the period completed (at most once per tick, no
    /// catch-up), spawn exactly `spawning_rate` cubes, each counted once, and
    /// return them.  A rate of 0 spawns nothing but still resets the timer.  If
    /// the timer did not fire, nothing else changes.
    pub fn tick(&mut self, counter: &mut CubesCounter, delta_ms: u64) -> (spawned: Vec<
        SpawnedCube,
    >)
        requires
            old(self).wf(),
            old(self).timer.elapsed() + delta_ms <= u64::MAX,
            old(counter).count + old(self).spawning_rate <= u32::MAX,
        ensures
            final(self).wf(),
            final(self).spawning_rate == old(self).spawning_rate,
            final(self).timer.period() == old(self).timer.period(),
            final(counter).count >= old(counter).count,
            forall|i: int| 0 <= i < spawned@.len() ==> fresh_cube_wf(#[trigger] spawned@[i]),
            old(self).fires(delta_ms as int) ==> {
                &&& spawned@.len() == old(self).spawning_rate
                &&& final(counter).count == old(counter).count + old(self).spawning_rate
                &&& final(self).timer.elapsed() == (old(self).timer.elapsed() + delta_ms) % (
                old(self).timer.period() as int)
            },
            !old(self).fires(delta_ms as int) ==> {
                &&& spawned@.len() == 0
                &&& final(counter).count == old(counter).count
                &&& final(self).timer.elapsed() == old(self).timer.elapsed() + delta_ms
            },
    {
        let fired = self.timer.tick(delta_ms);
        let mut spawned: Vec<SpawnedCube> = Vec::new();
        if fired {
            let rate = self.spawning_rate;
            let mut k: u32 = 0;
            while k < rate
                invariant
                    k <= rate,
                    rate == old(self).spawning_rate,
                    spawned@.len() == k,
                    forall|i: int|
                        0 <= i < spawned@.len() ==> fresh_cube_wf(#[trigger] spawned@[i]),
                    counter.count == old(counter).count + k,
                    old(counter).count + rate <= u32::MAX,
                decreases rate - k,
            {
                let c = spawn_one();
                spawned.push(c);
                counter.count = counter.count + 1;
                k = k + 1;
            }
        }
        spawned
    }
}

} // verus!
