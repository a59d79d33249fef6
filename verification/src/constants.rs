//! Tuning constants of the simulation, in integer units.
//!
//! Positions are measured in sub-pixel units of `1/3600` pixel (`PX`
//! sub-units per pixel) and velocities in units of `1/60` pixel per second
//! (`VEL_UNIT` velocity units per pixel/second).  With the fixed step of
//! `1/60` second, one step moves a position by exactly the velocity number:
//! `(v/60 px/s) * (1/60 s) = v/3600 px = v` sub-units.

use vstd::prelude::*;

verus! {

/// Sub-pixel position units per pixel.
pub const PX: i64 = 3600;

/// Velocity units per pixel/second.
pub const VEL_UNIT: i64 = 60;

/// Simulation steps per second (the fixed step is 1/60 s).
pub const TICKS_PER_SECOND: u64 = 60;

/// Default window width (576 px).
pub const WINDOW_WIDTH: i64 = 576 * PX;

/// Default window height (624 px).
pub const WINDOW_HEIGHT: i64 = 624 * PX;

/// Width of the player's bounding box (34 px).
pub const BIRD_WIDTH: i64 = 34 * PX;

/// Height of the player's bounding box (24 px).
pub const BIRD_HEIGHT: i64 = 24 * PX;

/// Width of one pipe's bounding box (52 px).
pub const PIPE_WIDTH: i64 = 52 * PX;

/// Height of one pipe's bounding box (320 px).
pub const PIPE_HEIGHT: i64 = 320 * PX;

/// Height of the background sprite (512 px).
pub const BACKGROUND_HEIGHT: i64 = 512 * PX;

/// Height of the ground strip (112 px).
pub const GROUND_HEIGHT: i64 = 112 * PX;

/// Width of one ground tile (48 px); the scroll offset wraps at this value.
pub const GROUND_ITEM_SIZE: i64 = 48 * PX;

/// Leftward speed of obstacles, and the forward speed of the world
/// relative to the player (48 px/s).
pub const PLAYER_X_MAX_VELOCITY: i64 = 48 * VEL_UNIT;

/// Velocity set by a flap: the maximum upward speed (20 px/s).
pub const PLAYER_Y_MAX_UP_VELOCITY: i64 = 20 * VEL_UNIT;

/// Terminal fall speed (200 px/s).
pub const PLAYER_Y_MAX_VELOCITY: i64 = 200 * VEL_UNIT;

/// Pixels the player is nudged up by a flap (10 px).
pub const PLAYER_Y_UP_PIXEL: i64 = 10 * PX;

/// Loss of vertical velocity per step from gravity:
/// (80 px/s^2) * (1/60 s) in velocity units.
pub const GRAVITY_PER_TICK: i64 = 80;

/// Largest passable gap between a pipe pair (300 px).
pub const GAP_MAX: i64 = 300 * PX;

/// Smallest passable gap between a pipe pair (50 px).
pub const GAP_MIN: i64 = 50 * PX;

/// How much the largest gap shrinks per point of score (1/10 px).
pub const SCORE_GAP_STEP: i64 = 360;

/// Safety inset from either window bound when drawing the corridor
/// center (100 px).
pub const SPAWN_MARGIN: i64 = 100 * PX;

/// Seconds between two timer-driven obstacle spawns.
pub const SPAWN_OBSTACLE_TICK: u64 = 4;

/// Simulation steps between two timer-driven obstacle spawns.
pub const SPAWN_INTERVAL_TICKS: u64 = SPAWN_OBSTACLE_TICK * TICKS_PER_SECOND;

/// Coordinates are kept within this bound; a step that would leave it
/// saturates.  Far larger than anything on screen.
pub const POS_LIMIT: i64 = 1_000_000_000_000;

/// Velocities admitted by well-formed entities; far larger than any
/// speed the rules produce.
pub const VEL_LIMIT: i64 = 1_000_000;

/// Largest admitted window dimension (one million pixels).
pub const DIM_LIMIT: i64 = 1_000_000 * PX;

} // verus!
