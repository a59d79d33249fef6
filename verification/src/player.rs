//! Player physics: gravity, the flap action, and the spawn rule.

use vstd::prelude::*;

use crate::components::{spec_clamp_pos, clamp_pos, Movable, Player, Velocity};
use crate::constants::{
    GRAVITY_PER_TICK, PLAYER_Y_MAX_UP_VELOCITY, PLAYER_Y_MAX_VELOCITY, PLAYER_Y_UP_PIXEL,
    VEL_LIMIT,
};
use crate::world::GameWorld;

verus! {

/// Vertical velocity after one step of gravity: it loses
/// `GRAVITY_PER_TICK`, floored at the terminal fall speed.
pub open spec fn spec_gravity_step(vy: int) -> int {
    if vy - GRAVITY_PER_TICK < -PLAYER_Y_MAX_VELOCITY {
        -PLAYER_Y_MAX_VELOCITY as int
    } else {
        vy - GRAVITY_PER_TICK
    }
}

/// One step of gravity on the player: only the vertical velocity changes,
/// by [`spec_gravity_step`].
pub fn bird_automatic_system(player: &mut Player)
    requires
        old(player).wf(),
    ensures
        final(player).velocity.y == spec_gravity_step(old(player).velocity.y as int),
        final(player).velocity.x == old(player).velocity.x,
        final(player).id == old(player).id,
        final(player).x == old(player).x,
        final(player).y == old(player).y,
        final(player).rotation == old(player).rotation,
        final(player).movable == old(player).movable,
        final(player).wf(),
{
    let vy = player.velocity.y - GRAVITY_PER_TICK;
    if vy < -PLAYER_Y_MAX_VELOCITY {
        player.velocity.y = -PLAYER_Y_MAX_VELOCITY;
    } else {
        player.velocity.y = vy;
    }
}

/// A flap: the player is nudged up by a fixed pixel offset and the
/// vertical velocity is reset — not accumulated — to exactly the maximum
/// upward speed, whatever it was before.
pub fn input_key_system(player: &mut Player)
    requires
        old(player).wf(),
    ensures
        final(player).velocity.y == PLAYER_Y_MAX_UP_VELOCITY,
        final(player).y == spec_clamp_pos(old(player).y + PLAYER_Y_UP_PIXEL),
        final(player).velocity.x == old(player).velocity.x,
        final(player).id == old(player).id,
        final(player).x == old(player).x,
        final(player).rotation == old(player).rotation,
        final(player).movable == old(player).movable,
        final(player).wf(),
{
    player.y = clamp_pos(player.y + PLAYER_Y_UP_PIXEL);
    player.velocity.y = PLAYER_Y_MAX_UP_VELOCITY;
}

/// Where a fresh player appears: an eighth of the window width left of
/// center, a sixth of the window height above it.
pub open spec fn spec_player_spawn_x(w: int) -> int {
    -(w / 4 / 2)
}

/// See [`spec_player_spawn_x`].
pub open spec fn spec_player_spawn_y(h: int) -> int {
    h / 2 / 3
}

/// The player entity spawned on entering the playing state.
pub open spec fn spec_fresh_player(w: int, h: int, id: u64) -> Player {
    Player {
        id,
        x: spec_player_spawn_x(w) as i64,
        y: spec_player_spawn_y(h) as i64,
        rotation: 0,
        velocity: Velocity { x: 0, y: 0 },
        movable: Movable { need_rotation: true },
    }
}

/// Spawns a fresh player on entering play, unless one is already alive:
/// it appears left of center, a sixth of the window height up, at rest,
/// rotating with its fall, and the session's alive flag is set.
pub fn spawn_bird_system(world: &mut GameWorld)
    requires
        old(world).wf(),
        old(world).next_id <= u64::MAX - 1,
    ensures
        old(world).data.spec_alive() ==> *final(world) == *old(world),
        !old(world).data.spec_alive() ==> {
            &&& final(world).player == Some(
                spec_fresh_player(
                    old(world).win.width as int,
                    old(world).win.height as int,
                    old(world).next_id,
                ),
            )
            &&& final(world).next_id == old(world).next_id + 1
            &&& final(world).data.spec_alive()
            &&& final(world).data.spec_score() == old(world).data.spec_score()
            &&& final(world).data.spec_need_spawn() == old(world).data.spec_need_spawn()
            &&& final(world).obstacles@ == old(world).obstacles@
            &&& final(world).win == old(world).win
            &&& final(world).state == old(world).state
            &&& final(world).ground == old(world).ground
            &&& final(world).ui == old(world).ui
            &&& final(world).clock == old(world).clock
        },
        final(world).wf(),
{
    if !world.data.player_alive() {
        let id = world.next_id;
        let x = -(world.win.width / 4 / 2);
        let y = world.win.height / 2 / 3;
        world.player = Some(
            Player {
                id,
                x,
                y,
                rotation: 0,
                velocity: Velocity { x: 0, y: 0 },
                movable: Movable { need_rotation: true },
            },
        );
        world.next_id = id + 1;
        world.data.alive();
    }
}

/// Gravity strictly lowers the vertical velocity on every step without a
/// flap, until it reaches the terminal fall speed, and never takes it
/// below that speed.
pub proof fn lemma_gravity_monotonic(vy: int)
    requires
        -VEL_LIMIT <= vy <= VEL_LIMIT,
    ensures
        vy > -PLAYER_Y_MAX_VELOCITY ==> spec_gravity_step(vy) < vy,
        vy >= -PLAYER_Y_MAX_VELOCITY ==> spec_gravity_step(vy) >= -PLAYER_Y_MAX_VELOCITY,
        vy == -PLAYER_Y_MAX_VELOCITY ==> spec_gravity_step(vy) == vy,
{
}

} // verus!
