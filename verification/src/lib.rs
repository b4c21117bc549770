//! A small interactive scene controller: a keyboard-driven player sphere with
//! a child camera, plus a time-boxed camera-rotation gesture that locks out
//! re-triggering until it completes.
//!
//! All quantities are modeled exactly with integers:
//! - time is counted in nanoseconds;
//! - spatial lengths are fixed-point values with a `10^9` denominator, so a
//!   speed of `CAMERA_SPEED` world units per second over a frame of `dt`
//!   nanoseconds advances the position by exactly `CAMERA_SPEED * dt` stored
//!   units;
//! - each position coordinate is a lattice value `whole + diag / sqrt(2)`, so
//!   a normalized diagonal step (whose components are multiples of
//!   `1 / sqrt(2)`) is represented without rounding;
//! - yaw is counted in units of `(quarter turn) / CAMERA_ROTATE_DURATION_NS`,
//!   so the per-frame rotation increment of a running gesture is exactly
//!   `dt * direction` and a full gesture sums to exactly one quarter turn.
//!
//! The host engine (rendering, windowing, raw input polling, frame timing)
//! sits outside this crate and hands in plain values each frame.

use vstd::prelude::*;

pub mod gesture;
pub mod input;
pub mod movement;
pub mod scene;
pub mod systems;
pub mod world;

verus! {

/// Linear movement speed of the player, in world units per second.
pub const CAMERA_SPEED: i64 = 15;

/// Total duration of one camera-rotation gesture, in nanoseconds.
pub const CAMERA_ROTATE_DURATION_NS: u64 = 100_000_000;

/// Largest frame delta the per-frame components accept, in nanoseconds.
/// This is a machine limit (it keeps the fixed-point arithmetic inside
/// `i64`), far above any real frame time.
pub const MAX_FRAME_NS: u64 = 10_000_000_000;

/// Largest magnitude the per-frame components accept for a stored position
/// coordinate or yaw value, in stored units. This is a machine limit that
/// leaves room for one more frame's increment inside `i64`.
pub const MAX_COORD_MAGNITUDE: i64 = 4_000_000_000_000_000_000;

} // verus!
