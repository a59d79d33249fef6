//! The per-step simulation systems: movement, ground scroll, pass
//! detection with scoring, and collision detection.

use vstd::prelude::*;

use crate::components::{
    spec_clamp_pos, spec_rotation, clamp_pos, rotation_for, Ground, Obstacle, Player,
};
use crate::constants::{
    BIRD_HEIGHT, BIRD_WIDTH, GROUND_HEIGHT, GROUND_ITEM_SIZE, PIPE_HEIGHT, PIPE_WIDTH, POS_LIMIT,
    PX,
};
use crate::world::{obstacles_store_wf, GameWorld};

verus! {

/// One movement step of the player: the position advances by the
/// velocity (saturating at the coordinate limit), and a rotating entity
/// takes the tilt its vertical velocity dictates.
pub open spec fn spec_move_player(p: Player) -> Player {
    Player {
        x: spec_clamp_pos(p.x + p.velocity.x) as i64,
        y: spec_clamp_pos(p.y + p.velocity.y) as i64,
        rotation: if p.movable.need_rotation {
            spec_rotation(p.velocity.y as int) as i64
        } else {
            p.rotation
        },
        ..p
    }
}

/// One movement step of a pipe: the position advances by the velocity,
/// saturating at the coordinate limit.
pub open spec fn spec_move_obstacle(o: Obstacle) -> Obstacle {
    Obstacle {
        x: spec_clamp_pos(o.x + o.velocity.x) as i64,
        y: spec_clamp_pos(o.y + o.velocity.y) as i64,
        ..o
    }
}

/// One movement step of the whole pipe store.
pub open spec fn spec_moved_all(obs: Seq<Obstacle>) -> Seq<Obstacle> {
    obs.map_values(|o: Obstacle| spec_move_obstacle(o))
}

/// One scroll step of the ground strip: see [`ground_move_system`].
pub open spec fn spec_move_ground(g: Ground) -> Ground {
    Ground {
        offset: ((g.offset + PX) % (GROUND_ITEM_SIZE as int)) as i64,
        x: (-(g.offset + PX)) as i64,
    }
}

fn move_player_entity(p: &mut Player)
    requires
        old(p).wf(),
    ensures
        *final(p) == spec_move_player(*old(p)),
        final(p).wf(),
{
    p.x = clamp_pos(p.x + p.velocity.x);
    p.y = clamp_pos(p.y + p.velocity.y);
    if p.movable.need_rotation {
        p.rotation = rotation_for(p.velocity.y);
    }
}

fn move_obstacle_entity(o: Obstacle) -> (r: Obstacle)
    requires
        o.wf(),
    ensures
        r == spec_move_obstacle(o),
        r.wf(),
{
    Obstacle {
        x: clamp_pos(o.x + o.velocity.x),
        y: clamp_pos(o.y + o.velocity.y),
        ..o
    }
}

/// Moves every entity that carries a velocity: the player and all
/// pipes.  Positions advance by exactly the velocity number per step;
/// nothing else of the world changes.
pub fn movable_system(world: &mut GameWorld)
    requires
        old(world).wf(),
    ensures
        final(world).player == match old(world).player {
            Some(p) => Some(spec_move_player(p)),
            None => None::<Player>,
        },
        final(world).obstacles@ == spec_moved_all(old(world).obstacles@),
        final(world).win == old(world).win,
        final(world).state == old(world).state,
        final(world).data == old(world).data,
        final(world).ground == old(world).ground,
        final(world).ui == old(world).ui,
        final(world).clock == old(world).clock,
        final(world).next_id == old(world).next_id,
        final(world).wf(),
{
    match &mut world.player {
        Some(p) => move_player_entity(p),
        None => (),
    }
    let ghost moved = spec_moved_all(old(world).obstacles@);
    let n = world.obstacles.len();
    let mut out: Vec<Obstacle> = Vec::new();
    let mut i: usize = 0;
    while i < n
        invariant
            i <= n,
            n == world.obstacles@.len(),
            world.obstacles@ == old(world).obstacles@,
            obstacles_store_wf(world.obstacles@, world.next_id),
            out@ =~= moved.subrange(0, i as int),
            moved == spec_moved_all(old(world).obstacles@),
        decreases n - i,
    {
        let o = world.obstacles[i];
        out.push(move_obstacle_entity(o));
        i = i + 1;
        proof {
            assert(out@ =~= moved.subrange(0, i as int));
        }
    }
    proof {
        assert(moved.subrange(0, n as int) =~= moved);
    }
    world.obstacles = out;
    proof {
        let obs = world.obstacles@;
        assert forall|k: int| 0 <= k < obs.len() implies (#[trigger] obs[k]).wf() && obs[k].id
            < world.next_id by {
            assert(obs[k] == spec_move_obstacle(old(world).obstacles@[k]));
            assert(old(world).obstacles@[k].wf());
        }
        assert forall|k: int, j: int| 0 <= k < j < obs.len() implies #[trigger] obs[k].id
            < #[trigger] obs[j].id by {
            assert(obs[k] == spec_move_obstacle(old(world).obstacles@[k]));
            assert(obs[j] == spec_move_obstacle(old(world).obstacles@[j]));
        }
        match world.player {
            Some(p) => {
                assert forall|k: int| 0 <= k < obs.len() implies (#[trigger] obs[k]).id != p.id by {
                    assert(obs[k] == spec_move_obstacle(old(world).obstacles@[k]));
                }
            },
            None => (),
        }
    }
}

/// Scrolls the ground: the offset accumulates one pixel per step, the
/// x position is the negated accumulated offset, and the stored offset
/// wraps at one tile width.
pub fn ground_move_system(ground: &mut Ground)
    requires
        old(ground).wf(),
    ensures
        *final(ground) == spec_move_ground(*old(ground)),
        final(ground).offset == (old(ground).offset + PX) % (GROUND_ITEM_SIZE as int),
        final(ground).x == -(old(ground).offset + PX),
        final(ground).wf(),
{
    let off = ground.offset + PX;
    ground.x = -off;
    ground.offset = off % GROUND_ITEM_SIZE;
}

/// A pipe is passed once its right edge lies strictly left of the
/// player's tail edge.
pub open spec fn spec_passed(o: Obstacle, px: int) -> bool {
    px - (BIRD_WIDTH as int) / 2 > o.x + (PIPE_WIDTH as int) / 2
}

/// The pipes that remain after pass detection at player position `px`.
pub open spec fn spec_surviving(obs: Seq<Obstacle>, px: int) -> Seq<Obstacle> {
    obs.filter(|o: Obstacle| !spec_passed(o, px))
}

/// Whether any pipe of the store is passed at player position `px`.
pub open spec fn spec_any_passed(obs: Seq<Obstacle>, px: int) -> bool {
    exists|i: int| 0 <= i < obs.len() && spec_passed(#[trigger] obs[i], px)
}

/// Appending one element to a filtered sequence keeps it exactly when
/// the predicate admits it.
proof fn lemma_filter_push<A>(s: Seq<A>, x: A, pred: spec_fn(A) -> bool)
    ensures
        s.push(x).filter(pred) == if pred(x) {
            s.filter(pred).push(x)
        } else {
            s.filter(pred)
        },
{
    reveal(Seq::filter);
    let sx = s.push(x);
    assert(sx.drop_last() =~= s);
    assert(sx.last() == x);
    if pred(x) {
        assert(sx.filter(pred) =~= s.filter(pred).push(x));
    } else {
        assert(sx.filter(pred) =~= s.filter(pred));
    }
}

/// A filter keeps every element it returns from the original store, and
/// keeps the store well formed.
proof fn lemma_filter_store_wf(obs: Seq<Obstacle>, pred: spec_fn(Obstacle) -> bool, next_id: u64)
    requires
        obstacles_store_wf(obs, next_id),
    ensures
        obstacles_store_wf(obs.filter(pred), next_id),
        forall|k: int|
            0 <= k < obs.filter(pred).len() ==> obs.contains(#[trigger] obs.filter(pred)[k]),
    decreases obs.len(),
{
    reveal(Seq::filter);
    if obs.len() == 0 {
        assert(obs.filter(pred) =~= Seq::<Obstacle>::empty());
    } else {
        let init = obs.drop_last();
        let last = obs.last();
        assert(obstacles_store_wf(init, next_id)) by {
            assert(forall|i: int| 0 <= i < init.len() ==> init[i] == obs[i]);
        }
        lemma_filter_store_wf(init, pred, next_id);
        let f = obs.filter(pred);
        let fi = init.filter(pred);
        if pred(last) {
            assert(f == fi + seq![last]);
            assert forall|k: int| 0 <= k < f.len() implies obs.contains(#[trigger] f[k]) by {
                if k < fi.len() {
                    assert(f[k] == fi[k]);
                    assert(init.contains(fi[k]));
                    let j = choose|j: int| 0 <= j < init.len() && init[j] == fi[k];
                    assert(obs[j] == fi[k]);
                } else {
                    assert(f[k] == last);
                    assert(obs[obs.len() - 1] == last);
                }
            }
            assert forall|k: int| 0 <= k < f.len() implies (#[trigger] f[k]).wf() && f[k].id
                < next_id by {
                assert(obs.contains(f[k]));
                let j = choose|j: int| 0 <= j < obs.len() && obs[j] == f[k];
                assert(obs[j].wf());
            }
            assert forall|k: int, j: int| 0 <= k < j < f.len() implies #[trigger] f[k].id
                < #[trigger] f[j].id by {
                if j < fi.len() {
                    assert(f[k] == fi[k] && f[j] == fi[j]);
                } else {
                    assert(f[j] == last);
                    if k < fi.len() {
                        assert(f[k] == fi[k]);
                        assert(init.contains(fi[k]));
                        let m = choose|m: int| 0 <= m < init.len() && init[m] == fi[k];
                        assert(obs[m] == fi[k]);
                        assert(obs[m].id < obs[obs.len() - 1].id);
                    }
                }
            }
        } else {
            assert(f == fi);
            assert forall|k: int| 0 <= k < f.len() implies obs.contains(#[trigger] f[k]) by {
                assert(init.contains(fi[k]));
                let j = choose|j: int| 0 <= j < init.len() && init[j] == fi[k];
                assert(obs[j] == fi[k]);
            }
        }
    }
}

/// Pass detection and scoring: every passed pipe is despawned; if at
/// least one was passed this step, the score rises by one (saturating)
/// and a fresh obstacle spawn is requested.  Without a player the step
/// does nothing.
pub fn player_score_system(world: &mut GameWorld) -> (scored: bool)
    requires
        old(world).wf(),
    ensures
        old(world).player is None ==> *final(world) == *old(world) && !scored,
        match old(world).player {
            Some(p) => {
                &&& scored == spec_any_passed(old(world).obstacles@, p.x as int)
                &&& final(world).obstacles@ == spec_surviving(old(world).obstacles@, p.x as int)
                &&& (scored ==> final(world).data.spec_score() == (
                    if old(world).data.spec_score() < 255 {
                        old(world).data.spec_score() + 1
                    } else {
                        255int
                    }) && final(world).data.spec_need_spawn() && final(world).data.spec_alive()
                    == old(world).data.spec_alive())
                &&& (!scored ==> final(world).data == old(world).data)
            },
            None => true,
        },
        final(world).player == old(world).player,
        final(world).win == old(world).win,
        final(world).state == old(world).state,
        final(world).ground == old(world).ground,
        final(world).ui == old(world).ui,
        final(world).clock == old(world).clock,
        final(world).next_id == old(world).next_id,
        final(world).wf(),
{
    let px = match &world.player {
        Some(p) => p.x,
        None => {
            return false;
        },
    };
    let ghost pred = |o: Obstacle| !spec_passed(o, px as int);
    let n = world.obstacles.len();
    let mut out: Vec<Obstacle> = Vec::new();
    let mut any: bool = false;
    let mut i: usize = 0;
    while i < n
        invariant
            i <= n,
            n == world.obstacles@.len(),
            world.obstacles@ == old(world).obstacles@,
            obstacles_store_wf(world.obstacles@, world.next_id),
            out@ == world.obstacles@.subrange(0, i as int).filter(pred),
            any == spec_any_passed(world.obstacles@.subrange(0, i as int), px as int),
            pred == (|o: Obstacle| !spec_passed(o, px as int)),
            -POS_LIMIT <= px <= POS_LIMIT,
        decreases n - i,
    {
        let o = world.obstacles[i];
        proof {
            assert(o.wf());
        }
        let ghost prefix = world.obstacles@.subrange(0, i as int);
        if px - BIRD_WIDTH / 2 > o.x + PIPE_WIDTH / 2 {
            any = true;
        } else {
            out.push(o);
        }
        i = i + 1;
        proof {
            let prefix2 = world.obstacles@.subrange(0, i as int);
            assert(prefix2 =~= prefix.push(o));
            lemma_filter_push(prefix, o, pred);
            if spec_passed(o, px as int) {
                assert(spec_any_passed(prefix2, px as int)) by {
                    assert(prefix2[i - 1] == o);
                }
            } else {
                assert(spec_any_passed(prefix2, px as int) == spec_any_passed(
                    prefix,
                    px as int,
                )) by {
                    if spec_any_passed(prefix, px as int) {
                        let j = choose|j: int|
                            0 <= j < prefix.len() && spec_passed(prefix[j], px as int);
                        assert(spec_passed(prefix2[j], px as int));
                    } else if spec_any_passed(prefix2, px as int) {
                        let j = choose|j: int|
                            0 <= j < prefix2.len() && spec_passed(prefix2[j], px as int);
                        assert(j < prefix.len() || prefix2[j] == o);
                        if j < prefix.len() {
                            assert(spec_passed(prefix[j], px as int));
                        }
                    }
                }
            }
        }
    }
    proof {
        assert(world.obstacles@.subrange(0, n as int) =~= world.obstacles@);
        lemma_filter_store_wf(world.obstacles@, pred, world.next_id);
    }
    if any {
        world.data.add_score();
        world.data.call_obstacle_spawn();
    }
    world.obstacles = out;
    proof {
        let obs = world.obstacles@;
        match world.player {
            Some(p) => {
                assert forall|k: int| 0 <= k < obs.len() implies (#[trigger] obs[k]).id != p.id by {
                    assert(old(world).obstacles@.contains(obs[k]));
                    let j = choose|j: int|
                        0 <= j < old(world).obstacles@.len() && old(world).obstacles@[j] == obs[k];
                    assert(old(world).obstacles@[j].id != p.id);
                }
            },
            None => (),
        }
    }
    any
}

/// Whether the player's box, centered on its position, strictly
/// overlaps the pipe's box, centered on the pipe's position.
pub open spec fn spec_overlap(px: int, py: int, o: Obstacle) -> bool {
    let dx = if px >= o.x {
        px - o.x
    } else {
        o.x - px
    };
    let dy = if py >= o.y {
        py - o.y
    } else {
        o.y - py
    };
    dx < (BIRD_WIDTH as int + PIPE_WIDTH as int) / 2 && dy < (BIRD_HEIGHT as int
        + PIPE_HEIGHT as int) / 2
}

/// The player has hit the ceiling or the ground strip.
pub open spec fn spec_bounds_hit(y: int, h: int) -> bool {
    y >= h / 2 || y <= -(h / 2 - GROUND_HEIGHT)
}

/// Whether the player box at (`px`, `py`) overlaps any pipe of the
/// store.
pub open spec fn spec_overlap_any(px: int, py: int, obs: Seq<Obstacle>) -> bool {
    exists|i: int| 0 <= i < obs.len() && spec_overlap(px, py, #[trigger] obs[i])
}

/// Whether the world's player collided this step: against the window
/// bounds or with any live pipe.  Without a player there is no
/// collision.
pub open spec fn spec_collision(w: GameWorld) -> bool {
    match w.player {
        None => false,
        Some(p) => spec_bounds_hit(p.y as int, w.win.height as int) || spec_overlap_any(
            p.x as int,
            p.y as int,
            w.obstacles@,
        ),
    }
}

/// Collision detection: reports whether the player hit a bound or a
/// pipe.  Checking stops at the first overlapping pipe.
pub fn player_collision_check_system(world: &GameWorld) -> (collided: bool)
    requires
        world.wf(),
    ensures
        collided == spec_collision(*world),
{
    let (px, py) = match &world.player {
        Some(p) => (p.x, p.y),
        None => {
            return false;
        },
    };
    let h = world.win.height;
    let mut hit: bool = py >= h / 2 || py <= -(h / 2 - GROUND_HEIGHT);
    if !hit {
        let n = world.obstacles.len();
        let mut i: usize = 0;
        while i < n
            invariant_except_break
                i <= n,
                n == world.obstacles@.len(),
                world.wf(),
                world.player == Some(
                    Player { x: px, y: py, ..world.player.unwrap() },
                ),
                !hit,
                forall|j: int|
                    0 <= j < i ==> !spec_overlap(px as int, py as int, #[trigger] world.obstacles@[j]),
            ensures
                hit == exists|j: int|
                    0 <= j < world.obstacles@.len() && spec_overlap(
                        px as int,
                        py as int,
                        #[trigger] world.obstacles@[j],
                    ),
            decreases n - i,
        {
            let o = world.obstacles[i];
            proof {
                assert(o.wf());
            }
            let dx = if px >= o.x {
                px - o.x
            } else {
                o.x - px
            };
            let dy = if py >= o.y {
                py - o.y
            } else {
                o.y - py
            };
            if dx < (BIRD_WIDTH + PIPE_WIDTH) / 2 && dy < (BIRD_HEIGHT + PIPE_HEIGHT) / 2 {
                hit = true;
                proof {
                    assert(spec_overlap(px as int, py as int, world.obstacles@[i as int]));
                }
                break ;
            }
            i = i + 1;
        }
    }
    hit
}

/// Bounds collision: a player at or above half the window height is
/// collided; one strictly inside both bounds with no overlapping pipe
/// is not.
pub proof fn lemma_bounds_collision(w: GameWorld)
    requires
        w.wf(),
        w.player is Some,
    ensures
        w.player.unwrap().y >= w.win.height as int / 2 ==> spec_collision(w),
        (w.player.unwrap().y < w.win.height as int / 2 && w.player.unwrap().y > -(w.win.height
            as int / 2 - GROUND_HEIGHT) && (forall|i: int|
            0 <= i < w.obstacles@.len() ==> !spec_overlap(
                w.player.unwrap().x as int,
                w.player.unwrap().y as int,
                #[trigger] w.obstacles@[i],
            ))) ==> !spec_collision(w),
{
}

/// Every sequence whose elements all satisfy the predicate filters to
/// itself.
proof fn lemma_filter_all<A>(s: Seq<A>, pred: spec_fn(A) -> bool)
    requires
        forall|i: int| 0 <= i < s.len() ==> pred(#[trigger] s[i]),
    ensures
        s.filter(pred) == s,
    decreases s.len(),
{
    reveal(Seq::filter);
    if s.len() == 0 {
        assert(s.filter(pred) =~= s);
    } else {
        let init = s.drop_last();
        assert(forall|i: int| 0 <= i < init.len() ==> pred(#[trigger] init[i]));
        lemma_filter_all(init, pred);
        assert(s.filter(pred) =~= s);
    }
}

/// Pass detection is one-shot: a passed pipe is despawned in the same
/// step that scores it, so the surviving store holds no passed pipe and
/// a second detection at the same player position changes nothing and
/// scores nothing.
pub proof fn lemma_score_idempotent(obs: Seq<Obstacle>, px: int)
    ensures
        !spec_any_passed(spec_surviving(obs, px), px),
        spec_surviving(spec_surviving(obs, px), px) == spec_surviving(obs, px),
{
    let pred = |o: Obstacle| !spec_passed(o, px);
    let surv = obs.filter(pred);
    broadcast use vstd::seq_lib::group_filter_ensures;

    assert(forall|i: int| 0 <= i < surv.len() ==> pred(#[trigger] surv[i]));
    lemma_filter_all(surv, pred);
}

} // verus!
