//! A verified core for a minimal two-player pong simulation.
//!
//! Paddles move vertically under keyboard input, a ball moves continuously and
//! bounces off the horizontal field edges and off the paddles.  The modules
//! here hold the whole per-frame rule set: decoding the input snapshot,
//! assigning paddle velocity, integrating positions, clamping paddles and the
//! ball to the play field, and the ball/paddle collision test.  Rendering,
//! windowing and real key input are presentation work and live outside this
//! library.
//!
//! All quantities are integers: positions in thousandths of a unit, velocities
//! in whole units per second, elapsed time in milliseconds.  One unit per
//! second over one millisecond advances a position by exactly one thousandth
//! of a unit, so integration is exact and every rule is checked without
//! rounding.

pub mod field;
pub mod input;
pub mod systems;
pub mod world;
