//! Core gameplay logic for a billiards table: ball classification and
//! randomized attributes, the rack spawner, the "table settled vs. moving"
//! state machine, the pocketing rule, shot-power accumulation, and the
//! cue-stick aiming/shooting decisions.
//!
//! The surrounding rendering/physics engine owns continuous motion, meshes
//! and input devices; this crate only reads plain values handed in each tick
//! (ball poses, rest flags, ray hits, key states) and decides what to do.
//! Lengths are carried as integer milliunits (one thousandth of a world
//! unit) and shot power as integer hundredths, so every rule is exact.

pub mod balls;
pub mod geom;
pub mod stick;
pub mod table;
pub mod ui;
