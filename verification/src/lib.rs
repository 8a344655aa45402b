//! A polar-coordinate arcade simulation: a player craft confined to a
//! cylindrical tunnel dodges a central sun and a stream of radially
//! drifting flares, while a survival score accrues.
//!
//! All coordinates are fixed-point integers:
//! - positions, sizes and angles are measured in micro-units
//!   (`UNIT` = 1_000_000 micro-units = one game unit); angles live on a
//!   circle of circumference `ANG_FULL` = 1_000_000 (one revolution);
//! - time is measured in milliseconds (`MILLIS_PER_SEC` = 1_000 per second);
//! - velocities are measured in micro-units per millisecond, so advancing a
//!   position by `v * dt` is exact and frame-rate independent.

use vstd::prelude::*;

pub mod builder;
pub mod enemy;
pub mod flare;
pub mod frame;
pub mod game;
pub mod high_score;
pub mod object;
pub mod player;
pub mod rng;
pub mod sun;

verus! {

/// One game unit, in micro-units.
pub const UNIT: i64 = 1_000_000;

/// The circumference of the angular axis, in micro-units: angular
/// coordinates are taken modulo this value.
pub const ANG_FULL: i64 = 1_000_000;

/// Milliseconds per second of simulation time.
pub const MILLIS_PER_SEC: i64 = 1_000;

/// Largest tunnel length a session may be configured with, in micro-units.
pub const RADIAL_MAX_CAP: i64 = 1_000_000_000_000;

/// Largest admissible logic-tick duration, in milliseconds.
pub const DT_MAX: i64 = 10_000_000;

/// Largest admissible speed of any simulated object, in micro-units per
/// millisecond.
pub const VEL_CAP: i64 = 1_000;

/// Largest admissible simulation time, in milliseconds.
pub const T_MAX: i64 = 1_000_000_000_000;

/// Cap on any drawn waiting time, in milliseconds: a spawn draw always
/// terminates, at the price of never waiting more than ten minutes.
pub const WAIT_CAP: i64 = 600_000;

} // verus!
