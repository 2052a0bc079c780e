//! Fixed-point geometry. World lengths are carried as integer milliunits
//! (one thousandth of a world unit), which makes every placement and
//! impulse rule exact.

use vstd::prelude::*;

verus! {

/// A 3D point or vector in milliunits. `y` is the vertical axis; the table
/// plane sits at `y == 0`.
#[derive(Debug, Clone, Copy, PartialEq, Eq, Structural)]
pub struct Vec3i {
    pub x: i64,
    pub y: i64,
    pub z: i64,
}

} // verus!
