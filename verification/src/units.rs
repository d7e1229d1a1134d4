//! The controller's constants, in thousandths of the engine's unit.

use vstd::prelude::*;

verus! {

/// How many fixed-point units make one whole engine unit.
pub const UNITS_PER_WHOLE: i64 = 1_000;

/// Horizontal displacement of one walking step (5.0).
pub const WALK_SPEED: i64 = 5_000;

/// Vertical velocity of a jump at jump power one (200.0).
pub const JUMP_IMPULSE: i64 = 200_000;

/// Horizontal velocity gained by one ski push (20.0).
pub const THRUST: i64 = 20_000;

/// Bound that gates the rotate intents (5.0).
pub const ANGULAR_LIMIT: i64 = 5_000;

/// Angular velocity added or removed by one rotate intent (0.25).
pub const ANGULAR_INCREMENT: i64 = 250;

/// Share of the angular velocity that survives one step, in percent (0.98).
pub const DAMPING_PERCENT: i64 = 98;

/// Change of the camera's logarithmic zoom per zoom intent (0.1).
pub const ZOOM_DELTA: i64 = 100;

} // verus!
