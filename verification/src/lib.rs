//! Verified core of a cube-spawning demo.
//!
//! The library models the simulation state of a small real-time demo: a spawn
//! controller with a repeating interval timer, a motion rule that advances and
//! wraps cube positions, a key-driven rate adjuster, and a stats presenter that
//! formats the live numbers into a fixed text layout.
//!
//! Continuous quantities are held as fixed-point integers: positions and travel
//! bounds in micro-units (millionths of a world unit), speeds in micro-units per
//! millisecond, and elapsed time in milliseconds.  The host runtime that renders
//! the cubes, polls the keyboard and measures frame times stays outside; it hands
//! this library plain values and takes plain values back.

pub mod frame;
pub mod input;
pub mod motion;
pub mod spawner;
pub mod stats;
pub mod text;
pub mod timer;
