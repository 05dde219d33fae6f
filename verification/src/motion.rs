use vstd::prelude::*;

verus! {

/// Horizontal travel bound of every spawned cube: 20 world units, in micro-units.
pub const CUBE_X_RANGE: i64 = 20_000_000;

/// Speed of every spawned cube: 10 world units per second, in micro-units per
/// millisecond.
pub const CUBE_SPEED: i64 = 10_000;

/// Motion attributes of one cube: its speed (micro-units per millisecond) and
/// the horizontal bound past which its position wraps (micro-units).
#[derive(Clone, Copy, Debug, PartialEq, Eq, Structural)]
pub struct MovingCube {
    pub speed: i64,
    pub x_range: i64,
}

/// A 3D position, each axis in micro-units.
#[derive(Clone, Copy, Debug, PartialEq, Eq, Structural)]
pub struct Position {
    pub x: i64,
    pub y: i64,
    pub z: i64,
}

/// One record of the entity store: a cube's motion attributes with its position.
#[derive(Clone, Copy, Debug, PartialEq, Eq, Structural)]
pub struct SpawnedCube {
    pub motion: MovingCube,
    pub position: Position,
}

impl MovingCube {
    /// Well-formed: the wrap bound is positive.
    pub open spec fn wf(self) -> bool {
        0 < self.x_range
    }
}

/// The motion rule on the x axis: advance by `speed * delta_ms`, then wrap by a
/// single jump of `2 * x_range` if the result exceeds `x_range`.
pub open spec fn wrapped_x(x: int, speed: int, x_range: int, delta_ms: int) -> int {
    let moved = x + speed * delta_ms;
    if moved > x_range {
        moved - 2 * x_range
    } else {
        moved
    }
}

/// The arithmetic bounds under which one motion step fits in `i64`.
pub open spec fn step_fits(x: int, speed: int, delta_ms: int) -> bool {
    &&& delta_ms <= i64::MAX
    &&& i64::MIN <= speed * delta_ms <= i64::MAX
    &&& i64::MIN <= x + speed * delta_ms <= i64::MAX
}

/// Advance one x coordinate by `speed * delta_ms` micro-units and wrap it.
///
/// However far the cube overshoots, at most one jump of `2 * x_range` is taken
/// back: the result is either the displaced position itself or that position
/// less exactly `2 * x_range`.
pub fn advance_x(x: i64, speed: i64, x_range: i64, delta_ms: u64) -> (r: i64)
    requires
        0 < x_range,
        step_fits(x as int, speed as int, delta_ms as int),
    ensures
        r == wrapped_x(x as int, speed as int, x_range as int, delta_ms as int),
        r == x + speed * delta_ms || r == x + speed * delta_ms - 2 * (x_range as int),
{
    let moved = x + speed * (delta_ms as i64);
    if moved > x_range {
        (moved - x_range) - x_range
    } else {
        moved
    }
}

/// Advance one cube's position by one frame: x follows the motion rule, y and z
/// are never modified.
pub fn advance(motion: &MovingCube, position: &mut Position, delta_ms: u64)
    requires
        motion.wf(),
        step_fits(old(position).x as int, motion.speed as int, delta_ms as int),
    ensures
        final(position).x == wrapped_x(
            old(position).x as int,
            motion.speed as int,
            motion.x_range as int,
            delta_ms as int,
        ),
        final(position).y == old(position).y,
        final(position).z == old(position).z,
{
    position.x = advance_x(position.x, motion.speed, motion.x_range, delta_ms);
}

/// Advance every cube in the store by one frame.  Each position's x axis follows
/// the motion rule; nothing else about any record changes, and no record is
/// added or removed.
pub fn advance_all(cubes: &mut Vec<SpawnedCube>, delta_ms: u64)
    requires
        forall|i: int| 0 <= i < old(cubes)@.len() ==> {
            &&& (#[trigger] old(cubes)@[i]).motion.wf()
            &&& step_fits(
                old(cubes)@[i].position.x as int,
                old(cubes)@[i].motion.speed as int,
                delta_ms as int,
            )
        },
    ensures
        final(cubes)@.len() == old(cubes)@.len(),
        forall|i: int| 0 <= i < old(cubes)@.len() ==> {
            &&& (#[trigger] final(cubes)@[i]).motion == old(cubes)@[i].motion
            &&& final(cubes)@[i].position.x == wrapped_x(
                old(cubes)@[i].position.x as int,
                old(cubes)@[i].motion.speed as int,
                old(cubes)@[i].motion.x_range as int,
                delta_ms as int,
            )
            &&& final(cubes)@[i].position.y == old(cubes)@[i].position.y
            &&& final(cubes)@[i].position.z == old(cubes)@[i].position.z
        },
{
    let n = cubes.len();
    let mut k: usize = 0;
    while k < n
        invariant
            n == old(cubes)@.len(),
            k <= n,
            cubes@.len() == n,
            forall|i: int| 0 <= i < n ==> {
                &&& (#[trigger] old(cubes)@[i]).motion.wf()
                &&& step_fits(
                    old(cubes)@[i].position.x as int,
                    old(cubes)@[i].motion.speed as int,
                    delta_ms as int,
                )
            },
            forall|i: int| k <= i < n ==> #[trigger] cubes@[i] == old(cubes)@[i],
            forall|i: int| 0 <= i < k ==> {
                &&& (#[trigger] cubes@[i]).motion == old(cubes)@[i].motion
                &&& cubes@[i].position.x == wrapped_x(
                    old(cubes)@[i].position.x as int,
                    old(cubes)@[i].motion.speed as int,
                    old(cubes)@[i].motion.x_range as int,
                    delta_ms as int,
                )
                &&& cubes@[i].position.y == old(cubes)@[i].position.y
                &&& cubes@[i].position.z == old(cubes)@[i].position.z
            },
        decreases n - k,
    {
        let motion = cubes[k].motion;
        advance(&motion, &mut cubes[k].position, delta_ms);
        k = k + 1;
    }
}

} // verus!
