use cube_sim::spawner::{CubesCounter, SpawnController, INITIAL_SPAWNING_RATE, SPAWN_COORD_BOUND};
use cube_sim::timer::RepeatingTimer;

#[test]
fn timer_accumulates_then_fires() {
    let mut timer = RepeatingTimer::new(1000);
    assert_eq!(timer.period_millis(), 1000);
    assert_eq!(timer.elapsed_millis(), 0);
    assert!(!timer.tick(500));
    assert_eq!(timer.elapsed_millis(), 500);
    assert!(timer.tick(500));
    assert_eq!(timer.elapsed_millis(), 0);
}

#[test]
fn timer_fires_once_per_tick_without_catchup() {
    let mut timer = RepeatingTimer::new(1000);
    // 2.5 periods in one tick: one fire, and the remainder carries over.
    assert!(timer.tick(2500));
    assert_eq!(timer.elapsed_millis(), 500);
    assert!(!timer.tick(499));
    assert!(timer.tick(1));
    assert_eq!(timer.elapsed_millis(), 0);
}

#[test]
fn spawn_one_has_fixed_attributes_and_bounded_position() {
    for _ in 0..100 {
        let cube = cube_sim::spawner::spawn_one();
        assert_eq!(cube.motion.speed, 10_000);
        assert_eq!(cube.motion.x_range, 20_000_000);
        assert!(-SPAWN_COORD_BOUND <= cube.position.x && cube.position.x < SPAWN_COORD_BOUND);
        assert!(-SPAWN_COORD_BOUND <= cube.position.y && cube.position.y < SPAWN_COORD_BOUND);
        assert!(-SPAWN_COORD_BOUND <= cube.position.z && cube.position.z < SPAWN_COORD_BOUND);
    }
}

#[test]
fn full_period_spawns_one_batch() {
    // Initial rate 100, timer period 1 s: after exactly 1 s with no key input
    // the counter increases by 100 and one batch of 100 cubes exists, each
    // initial position within the spawn range on all three axes.
    let mut controller = SpawnController::new();
    let mut counter = CubesCounter::new();
    assert_eq!(controller.spawning_rate, INITIAL_SPAWNING_RATE);
    let spawned = controller.tick(&mut counter, 1000);
    assert_eq!(spawned.len(), 100);
    assert_eq!(counter.count, 100);
    for cube in &spawned {
        assert_eq!(cube.motion.speed, 10_000);
        assert_eq!(cube.motion.x_range, 20_000_000);
        assert!(-10_000_000 <= cube.position.x && cube.position.x < 10_000_000);
        assert!(-10_000_000 <= cube.position.y && cube.position.y < 10_000_000);
        assert!(-10_000_000 <= cube.position.z && cube.position.z < 10_000_000);
    }
}

#[test]
fn partial_period_spawns_nothing() {
    let mut controller = SpawnController::new();
    let mut counter = CubesCounter::new();
    let spawned = controller.tick(&mut counter, 999);
    assert!(spawned.is_empty());
    assert_eq!(counter.count, 0);
}

#[test]
fn counter_accumulates_over_batches() {
    let mut controller = SpawnController::new();
    let mut counter = CubesCounter::new();
    controller.tick(&mut counter, 1000);
    controller.tick(&mut counter, 1000);
    assert_eq!(counter.count, 200);
}

#[test]
fn zero_rate_spawns_nothing_but_resets_timer() {
    let mut controller = SpawnController::new();
    let mut counter = CubesCounter::new();
    controller.spawning_rate = 0;
    let spawned = controller.tick(&mut counter, 1000);
    assert!(spawned.is_empty());
    assert_eq!(counter.count, 0);
    // The period completed, so the timer starts over: 999 ms more does not
    // fire, the next 1 ms does.
    controller.spawning_rate = 1;
    assert!(controller.tick(&mut counter, 999).is_empty());
    let spawned = controller.tick(&mut counter, 1);
    assert_eq!(spawned.len(), 1);
    assert_eq!(counter.count, 1);
}
