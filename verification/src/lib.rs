//! Core logic of a small 2D lane-dodging driving game.
//!
//! A player sprite dodges obstacles scrolling across a horizontal lane,
//! loses health on collision, and the round ends on loss. The host engine
//! (rendering, audio, input devices, collision detection) lives outside
//! this crate; the crate holds the per-frame game logic: direction input,
//! player vertical motion with a leaning/slowdown mechanic, road and
//! obstacle scrolling and recycling, and collision-driven health loss.
//!
//! Positions are fixed-point integers in millionths of a world unit
//! (`UNIT`); frame times are in milliseconds; speeds are in world units
//! per second. One frame's scroll is then exactly
//! `speed * delta_ms * 1000` position steps with no rounding.
//! Dimensionless factors (lean accumulator, input perturbation, sprite
//! tilt) are in thousandths.

use vstd::prelude::*;

pub mod model;
pub mod state;
pub mod world;
pub mod update;
pub mod laws;
mod rng;

verus! {

/// One world unit, in position steps (millionths of a unit).
pub const UNIT: i64 = 1_000_000;

/// Base forward speed of the player sprite, in world units per second.
pub const PLAYER_SPEED: i64 = 250;

/// Scroll speed of the road and the obstacles, in world units per second.
pub const ROAD_SPEED: i64 = 400;

/// Speed offset (negative) applied to the player and to the scrolling
/// world while the player is leaning, in world units per second.
pub const LEAN_SLOWDOWN: i64 = -150;

/// Health at the start of a round.
pub const INITIAL_HEALTH: u8 = 5;

/// Vertical band outside which the player starts to lean, in position steps.
pub const LEAN_BAND: i64 = 91 * UNIT;

/// Vertical bound beyond which the player is out of the lane, in position steps.
pub const OUT_OF_BOUNDS_Y: i64 = 360 * UNIT;

/// Smallest lean-accumulator step while above the lean band, in thousandths.
pub const LEAN_STEP_MIN: i64 = 20;

/// Exclusive cap of a lean-accumulator step, in thousandths.
pub const LEAN_STEP_MAX: i64 = 100;

/// Exclusive bound of the random direction perturbation while leaning,
/// in thousandths.
pub const PERTURB_RANGE: i64 = 1000;

/// Base sprite tilt per unit of input direction, in thousandths.
pub const TILT_BASE: i64 = 150;

/// While leaning, each frame snaps the lean back to zero with
/// probability `1 / SNAP_ODDS`.
pub const SNAP_ODDS: u32 = 250;

/// Road markers wrap once they scroll left of this x, in position steps.
pub const ROAD_WRAP_X: i64 = -675 * UNIT;

/// Distance a road marker jumps right when it wraps, in position steps.
/// Equals the marker count times their spacing, so the strip tiles with
/// period `ROAD_WRAP_SHIFT`.
pub const ROAD_WRAP_SHIFT: i64 = 1500 * UNIT;

/// Number of road centerline markers.
pub const ROAD_MARKER_COUNT: usize = 10;

/// Spacing of the road centerline markers, in position steps.
pub const ROAD_SPACING: i64 = 150 * UNIT;

/// x of the leftmost road centerline marker at setup, in position steps.
pub const ROAD_FIRST_X: i64 = -600 * UNIT;

/// Horizontal pitch of the side boundary lines, in pixels and world units.
pub const SIDE_LINE_PITCH: i64 = 21;

/// Vertical offset of the side boundary lines, in position steps.
pub const SIDE_LINE_Y: i64 = 90 * UNIT;

/// Obstacles respawn once they scroll left of this x, in position steps.
pub const OBSTACLE_OFF_X: i64 = -800 * UNIT;

/// Number of obstacles on the road.
pub const OBSTACLE_COUNT: usize = 5;

/// Inclusive lower bound of a respawned obstacle's x, in position steps.
pub const SPAWN_X_MIN: i64 = 800 * UNIT;

/// Exclusive upper bound of a respawned obstacle's x, in position steps.
pub const SPAWN_X_MAX: i64 = 1600 * UNIT;

/// Inclusive lower bound of a respawned obstacle's y, in position steps.
pub const SPAWN_Y_MIN: i64 = -300 * UNIT;

/// Exclusive upper bound of a respawned obstacle's y, in position steps.
pub const SPAWN_Y_MAX: i64 = 300 * UNIT;

/// x of the player at setup, in position steps.
pub const PLAYER_START_X: i64 = -500 * UNIT;

/// Largest position magnitude the update functions accept, in position
/// steps. A bound is needed so that one frame's arithmetic stays within
/// `i64`; it is far beyond anything the game reaches.
pub const POS_LIMIT: i64 = 1_000_000 * UNIT;

/// Largest frame time the update functions accept, in milliseconds.
/// A bound is needed so that one frame's arithmetic stays within `i64`.
pub const DELTA_LIMIT: i64 = 1_000_000;

/// Largest lean-accumulator magnitude the update functions accept, in
/// thousandths. A bound is needed so that one frame's arithmetic stays
/// within `i64`; reaching it would take ten million frames at an extreme.
pub const LEAN_LIMIT: i64 = 1_000_000_000;

} // verus!
