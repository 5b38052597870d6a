//! A bouncing-bodies simulation core: a rectangular arena holds a large
//! population of moving bodies; each tick integrates their motion, reflects
//! them off the arena walls, and tracks the viewport so the camera projection
//! follows the render surface.
//!
//! All world coordinates are fixed-point: `SCALE` sub-units make one world
//! unit. Velocities are sub-units per second; tick deltas are microseconds.

use vstd::prelude::*;

pub mod body;
pub mod bounce;
pub mod motion;
pub mod rng;
pub mod sim;
pub mod viewport;

verus! {

/// Fixed-point sub-units per world unit.
pub const SCALE: i64 = 1_000_000;

/// Microseconds per second: the scale of tick deltas.
pub const MICROS_PER_SEC: i64 = 1_000_000;

/// Largest arena extent accepted, in sub-units (ten million world units).
pub const MAX_EXTENT: i64 = 10_000_000_000_000;

/// Largest speed magnitude accepted, in sub-units per second.
pub const MAX_SPEED: i64 = 100_000_000_000;

/// Largest tick delta accepted, in microseconds (ten seconds).
pub const MAX_DELTA: i64 = 10_000_000;

/// Largest distance one integration step can cover on one axis:
/// `MAX_SPEED * MAX_DELTA / MICROS_PER_SEC`, in sub-units.
pub const MAX_STEP: i64 = 1_000_000_000_000;

/// Largest position magnitude the reflector accepts: anywhere a body inside
/// the largest arena can land after one integration step.
pub const POS_LIMIT: i64 = MAX_EXTENT + MAX_STEP;

/// Near plane of the camera projection, in sub-units (a tenth of a unit).
pub const CAMERA_NEAR: i64 = 100_000;

/// Far plane of the camera projection, in sub-units (two thousand units).
pub const CAMERA_FAR: i64 = 2_000_000_000;

} // verus!
