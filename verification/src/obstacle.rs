//! Procedural obstacle generation: randomized, score-scaled pipe pairs.

use vstd::prelude::*;

use rand::Rng;

use crate::components::{Movable, Obstacle, Velocity};
use crate::constants::{
    BACKGROUND_HEIGHT, DIM_LIMIT, GAP_MAX, GAP_MIN, GROUND_HEIGHT, PIPE_HEIGHT, PIPE_WIDTH,
    PLAYER_X_MAX_VELOCITY, SCORE_GAP_STEP, SPAWN_INTERVAL_TICKS, SPAWN_MARGIN,
};
use crate::world::GameWorld;

verus! {

/// The largest gap the generator may draw at a given score: it shrinks
/// by a tenth of a pixel per point, floored at the smallest gap.
pub open spec fn spec_max_gap(score: int) -> int {
    let m = GAP_MAX - score * SCORE_GAP_STEP;
    if m < GAP_MIN {
        GAP_MIN as int
    } else {
        m
    }
}

/// Gap difficulty is monotone: a higher score never widens the largest
/// gap the generator may draw.
pub proof fn lemma_gap_monotonic(s1: int, s2: int)
    requires
        0 <= s1 <= s2,
    ensures
        spec_max_gap(s2) <= spec_max_gap(s1),
{
}

/// Center of the playable band: the window height less the background
/// sprite height, halved, which keeps pipes clear of the ground strip.
pub open spec fn spec_center_y(h: int) -> int {
    (h - BACKGROUND_HEIGHT) / 2
}

/// Pipes spawn just beyond the right window edge.
pub open spec fn spec_spawn_x(w: int) -> int {
    w / 2 + (PIPE_WIDTH as int) / 2
}

/// Upper bound (exclusive) of the corridor-center jitter.
pub open spec fn spec_ry_max(h: int) -> int {
    h / 2 - SPAWN_MARGIN
}

/// Lower bound (inclusive) of the corridor-center jitter.
pub open spec fn spec_ry_min(h: int) -> int {
    -(h / 2 - SPAWN_MARGIN - GROUND_HEIGHT)
}

/// Damping term: half the distance between the band center and the
/// drawn corridor center.
pub open spec fn spec_half_distance(h: int, point_y: int) -> int {
    (if spec_center_y(h) >= point_y {
        spec_center_y(h) - point_y
    } else {
        point_y - spec_center_y(h)
    }) / 2
}

/// The share of the gap handed to the upper pipe: `split` is drawn in
/// permille from [300, 700), so the split is never exactly symmetric
/// against the same bound twice.
pub open spec fn spec_rand_half_gap(gap: int, split: int) -> int {
    gap * split / 1000
}

/// Center of the top (flipped) pipe of a pair.
pub open spec fn spec_pipe_upper_y(h: int, point_y: int, gap: int, split: int) -> int {
    spec_center_y(h) + spec_half_distance(h, point_y) + (spec_rand_half_gap(gap, split)
        + (PIPE_HEIGHT as int) / 2)
}

/// Center of the bottom pipe of a pair.
pub open spec fn spec_pipe_down_y(h: int, point_y: int, gap: int, split: int) -> int {
    spec_center_y(h) - spec_half_distance(h, point_y) - (gap - spec_rand_half_gap(gap, split)
        + (PIPE_HEIGHT as int) / 2)
}

/// A pipe as spawned: at the given center, drifting left at the fixed
/// obstacle speed, never rotating.
pub open spec fn spec_pipe(id: u64, x: int, y: int, flip_y: bool) -> Obstacle {
    Obstacle {
        id,
        x: x as i64,
        y: y as i64,
        flip_y,
        velocity: Velocity { x: -PLAYER_X_MAX_VELOCITY as i64, y: 0 },
        movable: Movable { need_rotation: false },
    }
}

/// What holds of every freshly generated pair, whatever the generator
/// drew: for some corridor center within the jitter bounds, some gap
/// between the smallest gap and the score-scaled largest, and some
/// split share, the two pipes stand exactly where the placement
/// formulas put them.
pub open spec fn spec_pair_ok(
    h: int,
    score: u8,
    x: int,
    bottom_id: u64,
    top_id: u64,
    bottom: Obstacle,
    top: Obstacle,
) -> bool {
    exists|point_y: int, gap: int, split: int|
        {
            &&& spec_ry_min(h) <= point_y < spec_ry_max(h)
            &&& GAP_MIN <= gap < spec_max_gap(score as int)
            &&& 300 <= split < 700
            &&& bottom == spec_pipe(bottom_id, x, spec_pipe_down_y(h, point_y, gap, split), false)
            &&& top == spec_pipe(top_id, x, spec_pipe_upper_y(h, point_y, gap, split), true)
        }
}

/// Relies on `rand::Rng::gen_range` over the half-open range `lo..hi`
/// of machine integers: for a non-empty range it returns a value of the
/// range; an empty range would panic, which the precondition rules out.
/// Nothing more is assumed of which value comes back.
#[verifier::external_body]
fn rand_range(lo: i64, hi: i64) -> (r: i64)
    requires
        lo < hi,
    ensures
        lo <= r < hi,
{
    rand::thread_rng().gen_range(lo..hi)
}

/// The score-scaled largest gap.  For every score it stays strictly
/// above the smallest gap, so the sampling range is never empty.
pub fn max_gap_for(score: u8) -> (g: i64)
    ensures
        g == spec_max_gap(score as int),
        GAP_MIN < g <= GAP_MAX,
{
    let m = GAP_MAX - (score as i64) * SCORE_GAP_STEP;
    if m < GAP_MIN {
        GAP_MIN
    } else {
        m
    }
}

/// Places one pipe pair from the values the generator drew.  This part
/// is deterministic: the two pipes stand exactly where the placement
/// formulas put them.
pub fn plan_obstacle_pair(
    h: i64,
    x: i64,
    point_y: i64,
    gap: i64,
    split: i64,
    bottom_id: u64,
    top_id: u64,
) -> (pair: (Obstacle, Obstacle))
    requires
        BACKGROUND_HEIGHT <= h <= DIM_LIMIT,
        -(2 * DIM_LIMIT) <= x <= 2 * DIM_LIMIT,
        spec_ry_min(h as int) <= point_y < spec_ry_max(h as int),
        GAP_MIN <= gap <= GAP_MAX,
        300 <= split < 700,
    ensures
        pair.0 == spec_pipe(
            bottom_id,
            x as int,
            spec_pipe_down_y(h as int, point_y as int, gap as int, split as int),
            false,
        ),
        pair.1 == spec_pipe(
            top_id,
            x as int,
            spec_pipe_upper_y(h as int, point_y as int, gap as int, split as int),
            true,
        ),
        pair.0.wf(),
        pair.1.wf(),
{
    proof {
        assert(0 <= gap * split && gap * split <= 1_080_000i64 * 700) by (nonlinear_arith)
            requires
                GAP_MIN <= gap <= GAP_MAX,
                300 <= split < 700,
        ;
    }
    let center_y = (h - BACKGROUND_HEIGHT) / 2;
    let half_distance = (if center_y >= point_y {
        center_y - point_y
    } else {
        point_y - center_y
    }) / 2;
    let rand_half_gap = gap * split / 1000;
    let half_pipe = PIPE_HEIGHT / 2;
    let pipe_upper = center_y + half_distance + (rand_half_gap + half_pipe);
    let pipe_down = center_y - half_distance - (gap - rand_half_gap + half_pipe);
    let bottom = Obstacle {
        id: bottom_id,
        x,
        y: pipe_down,
        flip_y: false,
        velocity: Velocity { x: -PLAYER_X_MAX_VELOCITY, y: 0 },
        movable: Movable { need_rotation: false },
    };
    let top = Obstacle {
        id: top_id,
        x,
        y: pipe_upper,
        flip_y: true,
        velocity: Velocity { x: -PLAYER_X_MAX_VELOCITY, y: 0 },
        movable: Movable { need_rotation: false },
    };
    (bottom, top)
}

/// Draws and spawns one pipe pair at horizontal position `x`, with the
/// gap scaled by the current score.  The two pipes receive the next two
/// arena identities, bottom first.
pub fn spawn_obstacle_pair(world: &mut GameWorld, x: i64)
    requires
        old(world).wf(),
        -(2 * DIM_LIMIT) <= x <= 2 * DIM_LIMIT,
        old(world).next_id <= u64::MAX - 2,
    ensures
        final(world).obstacles@.len() == old(world).obstacles@.len() + 2,
        final(world).obstacles@.subrange(0, old(world).obstacles@.len() as int) == old(
            world,
        ).obstacles@,
        spec_pair_ok(
            old(world).win.height as int,
            old(world).data.spec_score(),
            x as int,
            old(world).next_id,
            (old(world).next_id + 1) as u64,
            final(world).obstacles@[old(world).obstacles@.len() as int],
            final(world).obstacles@[old(world).obstacles@.len() as int + 1],
        ),
        final(world).next_id == old(world).next_id + 2,
        final(world).player == old(world).player,
        final(world).win == old(world).win,
        final(world).state == old(world).state,
        final(world).data == old(world).data,
        final(world).ground == old(world).ground,
        final(world).ui == old(world).ui,
        final(world).clock == old(world).clock,
        final(world).wf(),
{
    let h = world.win.height;
    let ry_max = h / 2 - SPAWN_MARGIN;
    let ry_min = -(h / 2 - SPAWN_MARGIN - GROUND_HEIGHT);
    let point_y = rand_range(ry_min, ry_max);
    let score = world.data.get_score();
    let maxg = max_gap_for(score);
    // the range is sorted before sampling, so it can never invert
    let lo = if maxg < GAP_MIN {
        maxg
    } else {
        GAP_MIN
    };
    let hi = if maxg < GAP_MIN {
        GAP_MIN
    } else {
        maxg
    };
    let gap = rand_range(lo, hi);
    let split = rand_range(300, 700);
    let bottom_id = world.next_id;
    let top_id = world.next_id + 1;
    let (bottom, top) = plan_obstacle_pair(h, x, point_y, gap, split, bottom_id, top_id);
    let ghost before = world.obstacles@;
    world.obstacles.push(bottom);
    world.obstacles.push(top);
    world.next_id = world.next_id + 2;
    proof {
        assert(world.obstacles@.subrange(0, before.len() as int) =~= before);
        assert(world.obstacles@[before.len() as int] == bottom);
        assert(world.obstacles@[before.len() as int + 1] == top);
        assert forall|i: int, j: int| 0 <= i < j < world.obstacles@.len() implies #[trigger] world
            .obstacles@[i].id < #[trigger] world.obstacles@[j].id by {
            if j < before.len() {
            } else if i < before.len() {
                assert(before[i].id < old(world).next_id);
            }
        }
    }
}

/// Timer-driven spawn: one fresh pair just beyond the right window
/// edge.
pub fn spawn_obstacle_system(world: &mut GameWorld)
    requires
        old(world).wf(),
        old(world).next_id <= u64::MAX - 2,
    ensures
        final(world).obstacles@.len() == old(world).obstacles@.len() + 2,
        final(world).obstacles@.subrange(0, old(world).obstacles@.len() as int) == old(
            world,
        ).obstacles@,
        spec_pair_ok(
            old(world).win.height as int,
            old(world).data.spec_score(),
            spec_spawn_x(old(world).win.width as int),
            old(world).next_id,
            (old(world).next_id + 1) as u64,
            final(world).obstacles@[old(world).obstacles@.len() as int],
            final(world).obstacles@[old(world).obstacles@.len() as int + 1],
        ),
        final(world).next_id == old(world).next_id + 2,
        final(world).player == old(world).player,
        final(world).win == old(world).win,
        final(world).state == old(world).state,
        final(world).data == old(world).data,
        final(world).ground == old(world).ground,
        final(world).ui == old(world).ui,
        final(world).clock == old(world).clock,
        final(world).wf(),
{
    let x = world.win.width / 2 + PIPE_WIDTH / 2;
    spawn_obstacle_pair(world, x);
}

/// Initialization on entering play: two pairs are pre-seeded ahead of
/// the player, spaced by the distance the field scrolls between two
/// timer-driven spawns.
pub fn obstacle_init_system(world: &mut GameWorld)
    requires
        old(world).wf(),
        old(world).next_id <= u64::MAX - 4,
    ensures
        final(world).obstacles@.len() == old(world).obstacles@.len() + 4,
        final(world).obstacles@.subrange(0, old(world).obstacles@.len() as int) == old(
            world,
        ).obstacles@,
        spec_pair_ok(
            old(world).win.height as int,
            old(world).data.spec_score(),
            spec_spawn_x(old(world).win.width as int) - PIPE_WIDTH,
            old(world).next_id,
            (old(world).next_id + 1) as u64,
            final(world).obstacles@[old(world).obstacles@.len() as int],
            final(world).obstacles@[old(world).obstacles@.len() as int + 1],
        ),
        spec_pair_ok(
            old(world).win.height as int,
            old(world).data.spec_score(),
            spec_spawn_x(old(world).win.width as int) - PIPE_WIDTH - SPAWN_INTERVAL_TICKS
                * PLAYER_X_MAX_VELOCITY,
            (old(world).next_id + 2) as u64,
            (old(world).next_id + 3) as u64,
            final(world).obstacles@[old(world).obstacles@.len() as int + 2],
            final(world).obstacles@[old(world).obstacles@.len() as int + 3],
        ),
        final(world).next_id == old(world).next_id + 4,
        final(world).player == old(world).player,
        final(world).win == old(world).win,
        final(world).state == old(world).state,
        final(world).data == old(world).data,
        final(world).ground == old(world).ground,
        final(world).ui == old(world).ui,
        final(world).clock == old(world).clock,
        final(world).wf(),
{
    let x0 = world.win.width / 2 + PIPE_WIDTH / 2;
    let size = (SPAWN_INTERVAL_TICKS as i64) * PLAYER_X_MAX_VELOCITY;
    let ghost before = world.obstacles@;
    spawn_obstacle_pair(world, x0 - PIPE_WIDTH);
    spawn_obstacle_pair(world, x0 - PIPE_WIDTH - size);
    proof {
        assert(world.obstacles@.subrange(0, before.len() as int) =~= before);
    }
}

} // verus!
