//! Entities of the simulation and their movement attributes.

use vstd::prelude::*;

use crate::constants::{
    GROUND_ITEM_SIZE, PLAYER_Y_MAX_UP_VELOCITY, PLAYER_Y_MAX_VELOCITY, POS_LIMIT, VEL_LIMIT,
};

verus! {

/// A velocity in units of 1/60 pixel per second; one simulation step
/// advances the position by exactly this number of sub-units.
#[derive(Clone, Copy, Debug, PartialEq, Eq, Structural)]
pub struct Velocity {
    pub x: i64,
    pub y: i64,
}

impl Default for Velocity {
    fn default() -> (r: Self)
        ensures
            r.x == 0 && r.y == 0,
    {
        Self { x: 0, y: 0 }
    }
}

/// Movement attribute: whether the entity's rotation follows its
/// vertical velocity.
#[derive(Clone, Copy, Debug, PartialEq, Eq, Structural)]
pub struct Movable {
    pub need_rotation: bool,
}

impl Default for Movable {
    fn default() -> (r: Self)
        ensures
            !r.need_rotation,
    {
        Self { need_rotation: false }
    }
}

/// The player entity: a stable identity, a position, a display rotation
/// in milliradians, and its movement attributes.
#[derive(Clone, Copy, Debug, PartialEq, Eq, Structural)]
pub struct Player {
    pub id: u64,
    pub x: i64,
    pub y: i64,
    /// Nose tilt in milliradians, derived from the vertical velocity.
    pub rotation: i64,
    pub velocity: Velocity,
    pub movable: Movable,
}

impl Player {
    /// Numeric bounds every player entity of a well-formed world meets.
    pub open spec fn wf(self) -> bool {
        &&& -POS_LIMIT <= self.x <= POS_LIMIT
        &&& -POS_LIMIT <= self.y <= POS_LIMIT
        &&& -VEL_LIMIT <= self.velocity.x <= VEL_LIMIT
        &&& -VEL_LIMIT <= self.velocity.y <= VEL_LIMIT
    }
}

/// One pipe entity.  Pipes are spawned in top/bottom pairs sharing an x
/// coordinate but live and die independently.
#[derive(Clone, Copy, Debug, PartialEq, Eq, Structural)]
pub struct Obstacle {
    pub id: u64,
    pub x: i64,
    pub y: i64,
    /// True for the top pipe of a pair, drawn vertically flipped.
    pub flip_y: bool,
    pub velocity: Velocity,
    pub movable: Movable,
}

impl Obstacle {
    /// Numeric bounds every obstacle of a well-formed world meets.
    pub open spec fn wf(self) -> bool {
        &&& -POS_LIMIT <= self.x <= POS_LIMIT
        &&& -POS_LIMIT <= self.y <= POS_LIMIT
        &&& -VEL_LIMIT <= self.velocity.x <= VEL_LIMIT
        &&& -VEL_LIMIT <= self.velocity.y <= VEL_LIMIT
    }
}

/// The scrolling ground strip: an accumulating offset that wraps at one
/// tile width, and the x position derived from it.
#[derive(Clone, Copy, Debug, PartialEq, Eq, Structural)]
pub struct Ground {
    pub offset: i64,
    pub x: i64,
}

impl Ground {
    pub open spec fn wf(self) -> bool {
        &&& 0 <= self.offset <= GROUND_ITEM_SIZE
        &&& -POS_LIMIT <= self.x <= POS_LIMIT
    }
}

/// Coordinates saturate at `POS_LIMIT`, far beyond anything visible, so
/// that movement can never overflow a machine integer.
pub open spec fn spec_clamp_pos(p: int) -> int {
    if p > POS_LIMIT as int {
        POS_LIMIT as int
    } else if p < -POS_LIMIT {
        -POS_LIMIT as int
    } else {
        p
    }
}

/// Computes [`spec_clamp_pos`] on machine integers.
pub fn clamp_pos(p: i64) -> (r: i64)
    ensures
        r == spec_clamp_pos(p as int),
{
    if p > POS_LIMIT {
        POS_LIMIT
    } else if p < -POS_LIMIT {
        -POS_LIMIT
    } else {
        p
    }
}

/// Rotation, in milliradians, shown for a rotating entity with vertical
/// velocity `vy`: the fraction of the maximum upward speed while rising,
/// of the terminal fall speed while falling.
pub open spec fn spec_rotation(vy: int) -> int {
    if vy > 0 {
        vy * 1000 / (PLAYER_Y_MAX_UP_VELOCITY as int)
    } else {
        -((-vy) * 1000 / (PLAYER_Y_MAX_VELOCITY as int))
    }
}

/// Computes [`spec_rotation`] on machine integers.
pub fn rotation_for(vy: i64) -> (r: i64)
    requires
        -VEL_LIMIT <= vy <= VEL_LIMIT,
    ensures
        r == spec_rotation(vy as int),
{
    if vy > 0 {
        vy * 1000 / PLAYER_Y_MAX_UP_VELOCITY
    } else {
        -((-vy) * 1000 / PLAYER_Y_MAX_VELOCITY)
    }
}

} // verus!
