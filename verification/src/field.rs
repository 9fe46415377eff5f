//! Dimensions of the play field and the bodies on it.
//!
//! Positions are measured in thousandths of a unit ("milliunits"), velocities
//! in whole units per second, and elapsed time in milliseconds.  The origin is
//! the centre of the field, the vertical axis points up.

use vstd::prelude::*;

verus! {

/// Half the width of the play field, in milliunits (640 units).
pub const HALF_FIELD_WIDTH: i64 = 640_000;

/// Half the height of the play field, in milliunits (360 units).
pub const HALF_FIELD_HEIGHT: i64 = 360_000;

/// Radius of the ball, in milliunits (8 units).
pub const BALL_RADIUS: i64 = 8_000;

/// Diameter of the ball, in milliunits (16 units).
pub const BALL_DIAMETER: i64 = 16_000;

/// Width of a paddle, in milliunits (16 units).
pub const PADDLE_WIDTH: i64 = 16_000;

/// Height of a paddle, in milliunits (64 units).
pub const PADDLE_HEIGHT: i64 = 64_000;

/// Half the height of a paddle, in milliunits (32 units).
pub const PADDLE_HALF_HEIGHT: i64 = 32_000;

/// Horizontal distance from the centre to each paddle, in milliunits (500 units).
pub const PADDLE_X_OFFSET: i64 = 500_000;

/// A paddle centre may not leave the vertical band
/// `[-PADDLE_Y_BOUND, PADDLE_Y_BOUND]`.
pub const PADDLE_Y_BOUND: i64 = HALF_FIELD_HEIGHT - PADDLE_HALF_HEIGHT;

/// The ball centre may not leave the vertical band
/// `[-BALL_Y_BOUND, BALL_Y_BOUND]`; beyond it the ball bounces.
pub const BALL_Y_BOUND: i64 = HALF_FIELD_HEIGHT - BALL_RADIUS;

/// Beyond `±BALL_X_EXIT` the ball has fully left the field on one side and is
/// put back at the centre.
pub const BALL_X_EXIT: i64 = HALF_FIELD_WIDTH + BALL_RADIUS;

/// Vertical paddle speed while exactly one key of a pair is held, in units
/// per second.
pub const PADDLE_SPEED: i64 = 400;

/// Each component of the ball's velocity at startup, in units per second.
pub const BALL_START_SPEED: i64 = 100;

/// No velocity component of a well-formed world exceeds this magnitude
/// (units per second).
pub const VELOCITY_LIMIT: i64 = 1_000_000_000;

/// Longest elapsed time one frame may account for, in milliseconds.  Together
/// with `VELOCITY_LIMIT` this keeps every integration step inside `i64`.
pub const ELAPSED_MS_MAX: i64 = 1_000_000_000;

} // verus!
