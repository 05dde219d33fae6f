use vstd::prelude::*;
use crate::input::{adjusted_rate, spec_rate_delta, SPAWNING_RATE_STEP};
use crate::motion::{advance_all, step_fits, wrapped_x, MovingCube, SpawnedCube, CUBE_SPEED,
    CUBE_X_RANGE};
use crate::spawner::{fresh_cube_wf, CubesCounter, SpawnController, SPAWN_COORD_BOUND};
use crate::stats::StatsDisplay;
use crate::text::{dec_seq, fixed2_seq};

verus! {

/// The two sustained key states, polled once per frame.
#[derive(Clone, Copy, Debug, PartialEq, Eq, Structural)]
pub struct FrameInput {
    pub increase_held: bool,
    pub decrease_held: bool,
}

/// The three frames-per-second samples the metrics collaborator supplies per
/// frame, each in hundredths; a sample can be absent for a frame, which is a
/// valid, non-error state.
#[derive(Clone, Copy, Debug, PartialEq, Eq, Structural)]
pub struct FpsSamples {
    pub raw: Option<u64>,
    pub sma: Option<u64>,
    pub ema: Option<u64>,
}

/// The spawn rate in force for this frame: the controller's rate after the
/// frame's key input has been applied.
pub open spec fn frame_rate(controller: SpawnController, input: FrameInput, delta_ms: int) -> int {
    adjusted_rate(
        controller.spawning_rate as int,
        input.increase_held,
        input.decrease_held,
        spec_rate_delta(SPAWNING_RATE_STEP as int, delta_ms),
    )
}

/// What holds of a cube that was spawned this frame and then advanced by the
/// same frame's motion step: the fixed attributes, the untouched axes still in
/// the spawn range, and an x that is the motion rule applied to some initial
/// position in the spawn range.
pub open spec fn advanced_fresh_cube(c: SpawnedCube, delta_ms: int) -> bool {
    &&& c.motion == (MovingCube { speed: CUBE_SPEED, x_range: CUBE_X_RANGE })
    &&& -SPAWN_COORD_BOUND <= c.position.y < SPAWN_COORD_BOUND
    &&& -SPAWN_COORD_BOUND <= c.position.z < SPAWN_COORD_BOUND
    &&& exists|x0: int|
        (-SPAWN_COORD_BOUND <= x0 < SPAWN_COORD_BOUND) && c.position.x == #[trigger] wrapped_x(
            x0,
            CUBE_SPEED as int,
            CUBE_X_RANGE as int,
            delta_ms,
        )
}

/// One whole frame, in the documented total order: key input adjusts the rate,
/// the spawn controller may emit a batch, the motion rule advances every cube
/// (the fresh batch included), and the stats presenter re-renders.
pub fn run_frame(
    controller: &mut SpawnController,
    counter: &mut CubesCounter,
    cubes: &mut Vec<SpawnedCube>,
    display: &mut StatsDisplay,
    input: FrameInput,
    fps: FpsSamples,
    delta_ms: u64,
)
    requires
        old(controller).wf(),
        old(display).wf(),
        2 * SPAWNING_RATE_STEP * delta_ms + 1000 <= u64::MAX,
        old(controller).timer.elapsed() + delta_ms <= u64::MAX,
        input.increase_held ==> old(controller).spawning_rate + spec_rate_delta(
            SPAWNING_RATE_STEP as int,
            delta_ms as int,
        ) <= u32::MAX,
        old(counter).count + frame_rate(*old(controller), input, delta_ms as int) <= u32::MAX,
        CUBE_SPEED * delta_ms + SPAWN_COORD_BOUND <= i64::MAX,
        forall|i: int| 0 <= i < old(cubes)@.len() ==> {
            &&& (#[trigger] old(cubes)@[i]).motion.wf()
            &&& step_fits(
                old(cubes)@[i].position.x as int,
                old(cubes)@[i].motion.speed as int,
                delta_ms as int,
            )
        },
    ensures
        final(controller).wf(),
        final(display).wf(),
        final(controller).spawning_rate == frame_rate(*old(controller), input, delta_ms as int),
        final(controller).timer.period() == old(controller).timer.period(),
        final(counter).count >= old(counter).count,
        old(controller).fires(delta_ms as int) ==> {
            &&& final(counter).count == old(counter).count + final(controller).spawning_rate
            &&& final(cubes)@.len() == old(cubes)@.len() + final(controller).spawning_rate
            &&& final(controller).timer.elapsed() == (old(controller).timer.elapsed() + delta_ms)
                % (old(controller).timer.period() as int)
        },
        !old(controller).fires(delta_ms as int) ==> {
            &&& final(counter).count == old(counter).count
            &&& final(cubes)@.len() == old(cubes)@.len()
            &&& final(controller).timer.elapsed() == old(controller).timer.elapsed() + delta_ms
        },
        forall|i: int| 0 <= i < old(cubes)@.len() ==> {
            &&& (#[trigger] final(cubes)@[i]).motion == old(cubes)@[i].motion
            &&& final(cubes)@[i].position.x == wrapped_x(
                old(cubes)@[i].position.x as int,
                old(cubes)@[i].motion.speed as int,
                old(cubes)@[i].motion.x_range as int,
                delta_ms as int,
            )
            &&& final(cubes)@[i].position.y == old(cubes)@[i].position.y
            &&& final(cubes)@[i].position.z == old(cubes)@[i].position.z
        },
        forall|i: int|
            old(cubes)@.len() <= i < final(cubes)@.len() ==> advanced_fresh_cube(
                #[trigger] final(cubes)@[i],
                delta_ms as int,
            ),
        final(display).sections@[3]@ == dec_seq(final(controller).spawning_rate as int),
        (old(controller).fires(delta_ms as int) && final(controller).spawning_rate > 0)
            ==> final(display).sections@[1]@ == dec_seq(final(counter).count as int),
        !(old(controller).fires(delta_ms as int) && final(controller).spawning_rate > 0)
            ==> final(display).sections@[1] == old(display).sections@[1],
        fps.raw matches Some(h) ==> final(display).sections@[5]@ == fixed2_seq(h as int),
        fps.raw is None ==> final(display).sections@[5] == old(display).sections@[5],
        fps.sma matches Some(h) ==> final(display).sections@[7]@ == fixed2_seq(h as int),
        fps.sma is None ==> final(display).sections@[7] == old(display).sections@[7],
        fps.ema matches Some(h) ==> final(display).sections@[9]@ == fixed2_seq(h as int),
        fps.ema is None ==> final(display).sections@[9] == old(display).sections@[9],
{
    controller.apply_input(input.increase_held, input.decrease_held, delta_ms);
    let count_before = counter.count;
    let ghost n_old = cubes@.len();
    let mut spawned = controller.tick(counter, delta_ms);
    let ghost fresh = spawned@;
    cubes.append(&mut spawned);
    assert forall|i: int| 0 <= i < cubes@.len() implies {
        &&& (#[trigger] cubes@[i]).motion.wf()
        &&& step_fits(cubes@[i].position.x as int, cubes@[i].motion.speed as int, delta_ms as int)
    } by {
        if i >= n_old {
            assert(fresh_cube_wf(fresh[i - n_old]));
        }
    }
    let ghost combined = cubes@;
    advance_all(cubes, delta_ms);
    assert forall|i: int|
        n_old <= i < cubes@.len() implies advanced_fresh_cube(
        #[trigger] cubes@[i],
        delta_ms as int,
    ) by {
        assert(fresh_cube_wf(combined[i]));
        assert(cubes@[i].position.x == wrapped_x(
            combined[i].position.x as int,
            CUBE_SPEED as int,
            CUBE_X_RANGE as int,
            delta_ms as int,
        ));
    }
    let count_changed = counter.count != count_before;
    display.update(
        counter.count,
        count_changed,
        controller.spawning_rate,
        fps.raw,
        fps.sma,
        fps.ema,
    );
}

} // verus!
