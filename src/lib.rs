//! The simulation core of a small arcade shooter: a craft moves along the bottom
//! of the playfield, fires projectiles upward and destroys stationary targets.
//!
//! Lengths and positions are integers in thousandths of a playfield unit, times
//! are integers in milliseconds, and speeds are thousandths of a unit per
//! millisecond. Drawing and the clock belong to the host: the scene takes the
//! current time as an argument and hands back the rectangles to fill.
use vstd::prelude::*;

pub mod geometry;
pub mod enemy;
pub mod bullet;
pub mod ship;
pub mod scene;

verus! {

/// Largest magnitude of a coordinate that the collision test accepts.
pub const COORD_LIMIT: i64 = 1_152_921_504_606_846_976;

/// Largest magnitude of the position of a target or of the craft.
pub const POS_LIMIT: i64 = 1_099_511_627_776;

/// Largest clock reading, in milliseconds, that the scene accepts.
pub const CLOCK_LIMIT: i64 = 1_125_899_906_842_624;

} // verus!
