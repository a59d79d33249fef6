//! The whole simulation state: entities, session data, flow state, and
//! the fixed-step clock.

use vstd::prelude::*;

use crate::components::{spec_clamp_pos, Ground, Obstacle, Player, Velocity};
use crate::constants::{
    GROUND_ITEM_SIZE, PIPE_WIDTH, PLAYER_X_MAX_VELOCITY, PLAYER_Y_MAX_UP_VELOCITY,
    PLAYER_Y_UP_PIXEL, SPAWN_INTERVAL_TICKS,
};
use crate::obstacle::{
    spec_pair_ok, spec_spawn_x, obstacle_init_system, spawn_obstacle_system,
};
use crate::player::{
    spec_fresh_player, spec_gravity_step, bird_automatic_system, input_key_system,
    spawn_bird_system,
};
use crate::resource::{GameData, WinSize};
use crate::state::{spec_next_state, GameState, InputState};
use crate::systems::{
    spec_any_passed, spec_bounds_hit, spec_move_ground, spec_move_player, spec_moved_all,
    spec_overlap_any, spec_surviving, ground_move_system, movable_system,
    player_collision_check_system, player_score_system,
};

verus! {

/// Which informational displays are on screen.  Each flag follows the
/// flow state; the game-over display carries the score captured when the
/// game ended, before the session reset it.
#[derive(Clone, Copy, Debug, PartialEq, Eq, Structural)]
pub struct UiState {
    pub display_menu: bool,
    pub display_score: bool,
    pub display_paused: bool,
    pub display_game_over: Option<u8>,
}

/// The sound cues one frame asks the presentation layer to play.
#[derive(Clone, Copy, Debug, PartialEq, Eq, Structural)]
pub struct SoundCues {
    pub fly: bool,
    pub point: bool,
    pub hit: bool,
    pub die: bool,
}

impl SoundCues {
    /// No cue at all.
    pub fn none() -> (r: Self)
        ensures
            !r.fly && !r.point && !r.hit && !r.die,
    {
        Self { fly: false, point: false, hit: false, die: false }
    }
}

/// The obstacle store is well formed: every pipe is within bounds, every
/// identity was drawn from the arena counter, and identities strictly
/// grow along the store, so they are distinct.
pub open spec fn obstacles_store_wf(obs: Seq<Obstacle>, next_id: u64) -> bool {
    &&& forall|i: int|
        0 <= i < obs.len() ==> (#[trigger] obs[i]).wf() && obs[i].id < next_id
    &&& forall|i: int, j: int|
        0 <= i < j < obs.len() ==> #[trigger] obs[i].id < #[trigger] obs[j].id
}

/// The whole simulation state.
pub struct GameWorld {
    pub win: WinSize,
    pub state: GameState,
    pub data: GameData,
    /// The player entity; at most one exists at any time.
    pub player: Option<Player>,
    /// Live pipes, in spawn order.
    pub obstacles: Vec<Obstacle>,
    /// The scrolling ground strip.
    pub ground: Ground,
    pub ui: UiState,
    /// Completed fixed steps; wraps after the whole counter space.
    pub clock: u64,
    /// Arena counter: the identity the next spawned entity receives.
    pub next_id: u64,
}

impl GameWorld {
    /// Everything the systems rely on between frames: bounded entities,
    /// distinct identities below the arena counter, and displays that
    /// follow the flow state.
    pub open spec fn wf(self) -> bool {
        &&& self.win.wf()
        &&& self.ground.wf()
        &&& match self.player {
            Some(p) => p.wf() && p.id < self.next_id,
            None => true,
        }
        &&& obstacles_store_wf(self.obstacles@, self.next_id)
        &&& match self.player {
            Some(p) => forall|i: int|
                0 <= i < self.obstacles@.len() ==> (#[trigger] self.obstacles@[i]).id != p.id,
            None => true,
        }
        &&& self.ui.display_menu == (self.state == GameState::Menu)
        &&& self.ui.display_paused == (self.state == GameState::Paused)
        &&& self.ui.display_score == (self.state == GameState::InGame)
        &&& (self.state != GameState::GameOver ==> self.ui.display_game_over is None)
    }

    /// A fresh world in the menu state: no player, no obstacles, the
    /// ground at its initial offset, and the menu display up.
    pub fn new(win: WinSize) -> (w: Self)
        requires
            win.wf(),
        ensures
            w.wf(),
            w.win == win,
            w.state == GameState::Menu,
            w.data.spec_score() == 0,
            !w.data.spec_alive(),
            !w.data.spec_need_spawn(),
            w.player is None,
            w.obstacles@.len() == 0,
            w.ground == (Ground { offset: GROUND_ITEM_SIZE, x: 0 }),
            w.ui.display_menu,
            !w.ui.display_score,
            !w.ui.display_paused,
            w.ui.display_game_over is None,
            w.clock == 0,
            w.next_id == 0,
    {
        GameWorld {
            win,
            state: GameState::Menu,
            data: GameData::new(),
            player: None,
            obstacles: Vec::new(),
            ground: Ground { offset: GROUND_ITEM_SIZE, x: 0 },
            ui: UiState {
                display_menu: true,
                display_score: false,
                display_paused: false,
                display_game_over: None,
            },
            clock: 0,
            next_id: 0,
        }
    }
}

/// The step counter after one frame; it wraps at the end of the counter
/// space.
pub open spec fn spec_next_clock(c: u64) -> u64 {
    if c == u64::MAX {
        0u64
    } else {
        (c + 1) as u64
    }
}

/// One more point, saturating at the top of the score range.
pub open spec fn spec_saturating_inc(s: u8) -> u8 {
    if s < 255 {
        (s + 1) as u8
    } else {
        255u8
    }
}

/// The player after one whole playing frame: the flap (if any) nudges it
/// up and resets the vertical velocity, gravity then pulls, and the
/// movement step advances the position and tilts the sprite.
pub open spec fn spec_player_frame(p: Player, flap: bool) -> Player {
    let p0 = if flap {
        Player {
            y: spec_clamp_pos(p.y + PLAYER_Y_UP_PIXEL) as i64,
            velocity: Velocity { x: p.velocity.x, y: PLAYER_Y_MAX_UP_VELOCITY },
            ..p
        }
    } else {
        p
    };
    let p1 = Player {
        velocity: Velocity {
            x: p0.velocity.x,
            y: spec_gravity_step(p0.velocity.y as int) as i64,
        },
        ..p0
    };
    spec_move_player(p1)
}

/// The pipe store of a playing frame after movement.
pub open spec fn spec_in_game_moved(w: GameWorld) -> Seq<Obstacle> {
    spec_moved_all(w.obstacles@)
}

/// The pipe store of a playing frame after movement and pass detection,
/// before any fresh spawn.
pub open spec fn spec_in_game_base(w: GameWorld, flap: bool) -> Seq<Obstacle> {
    match w.player {
        None => spec_in_game_moved(w),
        Some(p) => spec_surviving(
            spec_in_game_moved(w),
            spec_player_frame(p, flap).x as int,
        ),
    }
}

/// Whether a playing frame scores: some moved pipe ends up passed by
/// the stepped player.
pub open spec fn spec_in_game_scored(w: GameWorld, flap: bool) -> bool {
    match w.player {
        None => false,
        Some(p) => spec_any_passed(spec_in_game_moved(w), spec_player_frame(p, flap).x as int),
    }
}

/// Whether a playing frame ends in a collision: the stepped player hits
/// a bound or overlaps a surviving pipe.
pub open spec fn spec_in_game_collided(w: GameWorld, flap: bool) -> bool {
    match w.player {
        None => false,
        Some(p) => {
            let pa = spec_player_frame(p, flap);
            spec_bounds_hit(pa.y as int, w.win.height as int) || spec_overlap_any(
                pa.x as int,
                pa.y as int,
                spec_in_game_base(w, flap),
            )
        },
    }
}

/// Whether a frame that starts in world `w` detects a collision; only a
/// playing frame can.
pub open spec fn spec_frame_collided(w: GameWorld, input: InputState) -> bool {
    w.state == GameState::InGame && spec_in_game_collided(w, input.flap)
}

/// Score of a playing frame after pass detection.
pub open spec fn spec_in_game_score_after(w: GameWorld, flap: bool) -> u8 {
    if spec_in_game_scored(w, flap) {
        spec_saturating_inc(w.data.spec_score())
    } else {
        w.data.spec_score()
    }
}

/// The four pre-seeded pipes appended to `base` on entering play: two
/// pairs, one pipe width inside the spawn edge and one spawn interval
/// apart.
pub open spec fn spec_init_pipes_appended(
    win: WinSize,
    score: u8,
    id0: u64,
    base: Seq<Obstacle>,
    obs: Seq<Obstacle>,
) -> bool {
    let h = win.height as int;
    let x1 = spec_spawn_x(win.width as int) - PIPE_WIDTH;
    let x2 = x1 - SPAWN_INTERVAL_TICKS * PLAYER_X_MAX_VELOCITY;
    &&& obs.len() == base.len() + 4
    &&& obs.subrange(0, base.len() as int) == base
    &&& spec_pair_ok(
        h,
        score,
        x1,
        id0,
        (id0 + 1) as u64,
        obs[base.len() as int],
        obs[base.len() as int + 1],
    )
    &&& spec_pair_ok(
        h,
        score,
        x2,
        (id0 + 2) as u64,
        (id0 + 3) as u64,
        obs[base.len() as int + 2],
        obs[base.len() as int + 3],
    )
}

/// What entering play does to a world `w`: the displays follow, a fresh
/// player spawns unless one is alive, and four pipes are pre-seeded.
/// Score, spawn request, window, clock and ground stay as they were.
pub open spec fn spec_entered_in_game(w: GameWorld, r: GameWorld) -> bool {
    let id0 = if w.data.spec_alive() {
        w.next_id
    } else {
        (w.next_id + 1) as u64
    };
    &&& r.state == GameState::InGame
    &&& r.win == w.win
    &&& r.clock == w.clock
    &&& r.ground == w.ground
    &&& r.data.spec_alive()
    &&& r.data.spec_score() == w.data.spec_score()
    &&& r.data.spec_need_spawn() == w.data.spec_need_spawn()
    &&& r.player == (if w.data.spec_alive() {
        w.player
    } else {
        Some(spec_fresh_player(w.win.width as int, w.win.height as int, w.next_id))
    })
    &&& spec_init_pipes_appended(w.win, w.data.spec_score(), id0, w.obstacles@, r.obstacles@)
    &&& r.next_id == w.next_id + (if w.data.spec_alive() {
        4int
    } else {
        5
    })
    &&& !r.ui.display_menu
    &&& r.ui.display_score
    &&& !r.ui.display_paused
    &&& r.ui.display_game_over is None
}

/// Raises the displays of the playing state, spawns a player if none is
/// alive, and pre-seeds the obstacle field.
fn enter_in_game(world: &mut GameWorld)
    requires
        old(world).wf(),
        old(world).next_id <= u64::MAX - 5,
    ensures
        spec_entered_in_game(*old(world), *final(world)),
        final(world).wf(),
{
    world.ui.display_menu = false;
    world.ui.display_score = true;
    world.ui.display_paused = false;
    world.ui.display_game_over = None;
    world.state = GameState::InGame;
    spawn_bird_system(world);
    obstacle_init_system(world);
}

/// One whole frame of the simulation, from the input actions of that
/// frame: the clock advances, the state's systems run in their fixed
/// order, and the flow state takes the one transition (if any) the
/// inputs and the collision result dictate.  Returns the sound cues the
/// frame raised.
pub fn frame(world: &mut GameWorld, input: &InputState) -> (cues: SoundCues)
    requires
        old(world).wf(),
        old(world).next_id <= u64::MAX - 10,
    ensures
        final(world).wf(),
        final(world).win == old(world).win,
        final(world).clock == spec_next_clock(old(world).clock),
        final(world).state == spec_next_state(
            old(world).state,
            *input,
            spec_frame_collided(*old(world), *input),
        ),
        old(world).state != GameState::InGame ==> !cues.fly && !cues.point && !cues.hit
            && !cues.die,
        old(world).state == GameState::Menu && !input.flap ==> *final(world) == (GameWorld {
            clock: spec_next_clock(old(world).clock),
            ..*old(world)
        }),
        old(world).state == GameState::Menu && input.flap ==> spec_entered_in_game(
            (GameWorld { clock: spec_next_clock(old(world).clock), ..*old(world) }),
            *final(world),
        ),
        old(world).state == GameState::Paused && !input.resume ==> *final(world) == (GameWorld {
            clock: spec_next_clock(old(world).clock),
            ..*old(world)
        }),
        old(world).state == GameState::Paused && input.resume ==> spec_entered_in_game(
            (GameWorld { clock: spec_next_clock(old(world).clock), ..*old(world) }),
            *final(world),
        ),
        old(world).state == GameState::GameOver && !input.menu && !input.flap_held
            ==> *final(world) == (GameWorld {
            clock: spec_next_clock(old(world).clock),
            data: old(world).data.spec_with_death(),
            ..*old(world)
        }),
        old(world).state == GameState::GameOver && input.menu ==> {
            &&& final(world).state == GameState::Menu
            &&& final(world).player is None
            &&& final(world).obstacles@ == Seq::<Obstacle>::empty()
            &&& final(world).data == old(world).data.spec_with_death()
            &&& final(world).ground == old(world).ground
            &&& final(world).next_id == old(world).next_id
            &&& final(world).ui.display_game_over is None
        },
        old(world).state == GameState::GameOver && !input.menu && input.flap_held ==> {
            &&& final(world).state == GameState::InGame
            &&& final(world).player == Some(
                spec_fresh_player(
                    old(world).win.width as int,
                    old(world).win.height as int,
                    old(world).next_id,
                ),
            )
            &&& final(world).data.spec_alive()
            &&& final(world).data.spec_score() == 0
            &&& final(world).data.spec_need_spawn() == old(world).data.spec_need_spawn()
            &&& spec_init_pipes_appended(
                old(world).win,
                0u8,
                (old(world).next_id + 1) as u64,
                Seq::<Obstacle>::empty(),
                final(world).obstacles@,
            )
            &&& final(world).next_id == old(world).next_id + 5
            &&& final(world).ground == old(world).ground
        },
        old(world).state == GameState::InGame ==> ({
            let w0 = *old(world);
            let flap = input.flap;
            let base = spec_in_game_base(w0, flap);
            let scored = spec_in_game_scored(w0, flap);
            let collided = spec_in_game_collided(w0, flap);
            let score2 = spec_in_game_score_after(w0, flap);
            let c2 = spec_next_clock(w0.clock);
            let due = c2 as int % (SPAWN_INTERVAL_TICKS as int) == 0;
            let req = w0.data.spec_need_spawn() || scored;
            let idr = if due {
                (w0.next_id + 2) as u64
            } else {
                w0.next_id
            };
            let posr = if due {
                base.len() as int + 2
            } else {
                base.len() as int
            };
            &&& final(world).player == (match w0.player {
                Some(p) => Some(spec_player_frame(p, flap)),
                None => None::<Player>,
            })
            &&& final(world).ground == spec_move_ground(w0.ground)
            &&& final(world).data.spec_score() == score2
            &&& final(world).data.spec_alive() == w0.data.spec_alive()
            &&& !final(world).data.spec_need_spawn()
            &&& final(world).obstacles@.len() == base.len() + (if due {
                2int
            } else {
                0
            }) + (if req {
                2int
            } else {
                0
            })
            &&& final(world).obstacles@.subrange(0, base.len() as int) == base
            &&& (due ==> spec_pair_ok(
                w0.win.height as int,
                score2,
                spec_spawn_x(w0.win.width as int),
                w0.next_id,
                (w0.next_id + 1) as u64,
                final(world).obstacles@[base.len() as int],
                final(world).obstacles@[base.len() as int + 1],
            ))
            &&& (req ==> spec_pair_ok(
                w0.win.height as int,
                score2,
                spec_spawn_x(w0.win.width as int),
                idr,
                (idr + 1) as u64,
                final(world).obstacles@[posr],
                final(world).obstacles@[posr + 1],
            ))
            &&& final(world).next_id == w0.next_id + (if due {
                2int
            } else {
                0
            }) + (if req {
                2int
            } else {
                0
            })
            &&& final(world).ui.display_game_over == (if collided {
                Some(score2)
            } else {
                None::<u8>
            })
            &&& cues == (SoundCues { fly: flap, point: scored, hit: collided, die: collided })
        }),
{
    world.clock = if world.clock == u64::MAX {
        0
    } else {
        world.clock + 1
    };
    match world.state {
        GameState::Menu => {
            if input.flap {
                enter_in_game(world);
            }
            SoundCues::none()
        },
        GameState::Paused => {
            if input.resume {
                enter_in_game(world);
            }
            SoundCues::none()
        },
        GameState::GameOver => {
            world.data.death();
            if input.menu {
                world.ui.display_game_over = None;
                world.obstacles = Vec::new();
                world.player = None;
                world.ui.display_menu = true;
                world.state = GameState::Menu;
                proof {
                    assert(world.obstacles@ =~= Seq::<Obstacle>::empty());
                }
            } else if input.flap_held {
                world.ui.display_game_over = None;
                world.obstacles = Vec::new();
                world.player = None;
                proof {
                    assert(world.obstacles@ =~= Seq::<Obstacle>::empty());
                }
                enter_in_game(world);
            }
            SoundCues::none()
        },
        GameState::InGame => {
            let mut cues = SoundCues::none();
            if input.flap {
                cues.fly = true;
                match &mut world.player {
                    Some(p) => input_key_system(p),
                    None => (),
                }
            }
            match &mut world.player {
                Some(p) => bird_automatic_system(p),
                None => (),
            }
            movable_system(world);
            ground_move_system(&mut world.ground);
            let scored = player_score_system(world);
            if scored {
                cues.point = true;
            }
            let collided = player_collision_check_system(world);
            if collided {
                cues.hit = true;
                cues.die = true;
            }
            let ghost base_len = world.obstacles@.len() as int;
            let due = world.clock % SPAWN_INTERVAL_TICKS == 0;
            if due {
                spawn_obstacle_system(world);
            }
            if world.data.need_spawn_obstacle() {
                spawn_obstacle_system(world);
                world.data.obstacle_call_back();
                proof {
                    assert(world.obstacles@.subrange(0, base_len) =~= world.obstacles@.subrange(
                        0,
                        if due {
                            base_len + 2
                        } else {
                            base_len
                        },
                    ).subrange(0, base_len));
                }
            }
            if collided {
                world.ui.display_score = false;
                let s = world.data.get_score();
                world.ui.display_game_over = Some(s);
                world.state = GameState::GameOver;
            } else if input.pause {
                world.ui.display_score = false;
                world.ui.display_paused = true;
                world.state = GameState::Paused;
            }
            cues
        },
    }
}

} // verus!
