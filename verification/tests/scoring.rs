//! Pass detection, scoring, collision and the movement systems.

use flappy_bird::components::{Movable, Obstacle, Player, Velocity};
use flappy_bird::constants::PX;
use flappy_bird::resource::{GameData, WinSize};
use flappy_bird::state::{GameState, InputState};
use flappy_bird::systems::{
    ground_move_system, movable_system, player_collision_check_system, player_score_system,
};
use flappy_bird::components::Ground;
use flappy_bird::world::{frame, GameWorld, UiState};

fn win() -> WinSize {
    WinSize { width: 576 * PX, height: 624 * PX }
}

fn playing_world(player: Option<Player>, obstacles: Vec<Obstacle>, next_id: u64) -> GameWorld {
    let mut w = GameWorld::new(win());
    w.state = GameState::InGame;
    w.ui = UiState {
        display_menu: false,
        display_score: true,
        display_paused: false,
        display_game_over: None,
    };
    let mut data = GameData::new();
    if player.is_some() {
        data.alive();
    }
    w.data = data;
    w.player = player;
    w.obstacles = obstacles;
    w.next_id = next_id;
    w
}

fn still_bird(x: i64, y: i64) -> Player {
    Player {
        id: 0,
        x,
        y,
        rotation: 0,
        velocity: Velocity { x: 0, y: 0 },
        movable: Movable { need_rotation: false },
    }
}

fn pipe(id: u64, x: i64, y: i64) -> Obstacle {
    Obstacle {
        id,
        x,
        y,
        flip_y: false,
        velocity: Velocity { x: 0, y: 0 },
        movable: Movable { need_rotation: false },
    }
}

#[test]
fn passed_obstacle_scores_and_despawns() {
    // pipe right edge at -106400, player tail edge at -61200: passed
    let mut w = playing_world(
        Some(still_bird(0, 0)),
        vec![pipe(1, -200000, 0), pipe(2, 500000, 0)],
        3,
    );
    let scored = player_score_system(&mut w);
    assert!(scored);
    assert_eq!(w.data.get_score(), 1);
    assert!(w.data.need_spawn_obstacle());
    assert_eq!(w.obstacles.len(), 1);
    assert_eq!(w.obstacles[0].id, 2);
}

#[test]
fn obstacle_on_the_edge_is_not_passed() {
    // right edge -61200 equals the tail edge: strict comparison, no pass
    let mut w = playing_world(Some(still_bird(0, 0)), vec![pipe(1, -154800, 0)], 2);
    let scored = player_score_system(&mut w);
    assert!(!scored);
    assert_eq!(w.data.get_score(), 0);
    assert!(!w.data.need_spawn_obstacle());
    assert_eq!(w.obstacles.len(), 1);
}

#[test]
fn pair_passed_in_one_tick_scores_once() {
    // both halves of a pair share one x and are passed in the same tick:
    // one increment, as one detection pass awards a single point
    let mut w = playing_world(
        Some(still_bird(0, 0)),
        vec![pipe(1, -200000, -400000), pipe(2, -200000, 400000)],
        3,
    );
    let scored = player_score_system(&mut w);
    assert!(scored);
    assert_eq!(w.data.get_score(), 1);
    assert!(w.obstacles.is_empty());
}

#[test]
fn no_rescoring_across_ticks() {
    let mut w = playing_world(Some(still_bird(0, 0)), vec![pipe(1, -200000, 0)], 2);
    assert!(player_score_system(&mut w));
    assert_eq!(w.data.get_score(), 1);
    // the passed pipe no longer exists: a second tick scores nothing
    assert!(!player_score_system(&mut w));
    assert_eq!(w.data.get_score(), 1);
    assert!(w.obstacles.is_empty());
}

#[test]
fn score_frame_serves_spawn_request() {
    // a frame that scores also serves the spawn request it raised
    let mut w = playing_world(Some(still_bird(0, 0)), vec![pipe(1, -200000, 0)], 2);
    let input = InputState { flap: false, flap_held: false, pause: false, resume: false, menu: false };
    let cues = frame(&mut w, &input);
    assert!(cues.point);
    assert_eq!(w.data.get_score(), 1);
    assert!(!w.data.need_spawn_obstacle());
    // the passed pipe went, a fresh pair arrived at the spawn edge
    assert_eq!(w.obstacles.len(), 2);
    assert_eq!(w.obstacles[0].x, 576 * PX / 2 + 52 * PX / 2);
    assert_eq!(w.obstacles[1].x, 576 * PX / 2 + 52 * PX / 2);
    assert!(w.obstacles[1].flip_y);
    assert!(!w.obstacles[0].flip_y);
    assert_eq!(w.state, GameState::InGame);
}

#[test]
fn without_player_nothing_scores() {
    let mut w = playing_world(None, vec![pipe(1, -200000, 0)], 2);
    let scored = player_score_system(&mut w);
    assert!(!scored);
    assert_eq!(w.obstacles.len(), 1);
}

#[test]
fn bounds_collision_is_sharp() {
    // exactly on the ceiling: collided
    let w = playing_world(Some(still_bird(0, 624 * PX / 2)), vec![], 1);
    assert!(player_collision_check_system(&w));
    // one sub-unit below, no obstacle: not collided
    let w = playing_world(Some(still_bird(0, 624 * PX / 2 - 1)), vec![], 1);
    assert!(!player_collision_check_system(&w));
    // the ground strip: height/2 - ground height, hit at or below
    let w = playing_world(Some(still_bird(0, -(624 * PX / 2 - 112 * PX))), vec![], 1);
    assert!(player_collision_check_system(&w));
    let w = playing_world(Some(still_bird(0, -(624 * PX / 2 - 112 * PX) + 1)), vec![], 1);
    assert!(!player_collision_check_system(&w));
}

#[test]
fn obstacle_overlap_is_a_box_test() {
    // horizontal half-width sum: (34 + 52) / 2 px; vertical: (24 + 320) / 2 px
    let near = pipe(1, 43 * PX - 1, 0);
    let w = playing_world(Some(still_bird(0, 0)), vec![near], 2);
    assert!(player_collision_check_system(&w));
    let touching = pipe(1, 43 * PX, 0);
    let w = playing_world(Some(still_bird(0, 0)), vec![touching], 2);
    assert!(!player_collision_check_system(&w));
    let above = pipe(1, 0, 172 * PX - 1);
    let w = playing_world(Some(still_bird(0, 0)), vec![above], 2);
    assert!(player_collision_check_system(&w));
    let clear_above = pipe(1, 0, 172 * PX);
    let w = playing_world(Some(still_bird(0, 0)), vec![clear_above], 2);
    assert!(!player_collision_check_system(&w));
}

#[test]
fn movement_advances_by_velocity() {
    let mut p = still_bird(1000, 2000);
    p.velocity = Velocity { x: -2880, y: 500 };
    p.movable.need_rotation = true;
    let mut o = pipe(1, 50000, 60000);
    o.velocity = Velocity { x: -2880, y: 0 };
    let mut w = playing_world(Some(p), vec![o], 2);
    movable_system(&mut w);
    let p2 = w.player.unwrap();
    assert_eq!(p2.x, 1000 - 2880);
    assert_eq!(p2.y, 2000 + 500);
    assert_eq!(p2.rotation, 500 * 1000 / 1200); // rising tilt
    assert_eq!(w.obstacles[0].x, 50000 - 2880);
    assert_eq!(w.obstacles[0].y, 60000);
}

#[test]
fn timer_spawns_a_pair_every_interval() {
    // the spawn timer fires when the advancing clock reaches a multiple
    // of the interval (four seconds at sixty steps per second)
    let mut w = playing_world(Some(still_bird(0, 0)), vec![], 1);
    w.clock = 238;
    let input = InputState { flap: false, flap_held: false, pause: false, resume: false, menu: false };
    let _ = frame(&mut w, &input); // clock 239: nothing
    assert_eq!(w.obstacles.len(), 0);
    let _ = frame(&mut w, &input); // clock 240: one fresh pair
    assert_eq!(w.obstacles.len(), 2);
    assert_eq!(w.obstacles[0].x, 576 * PX / 2 + 52 * PX / 2);
    let _ = frame(&mut w, &input); // clock 241: nothing again
    assert_eq!(w.obstacles.len(), 2);
}

#[test]
fn movement_saturates_at_the_coordinate_limit() {
    let limit: i64 = 1_000_000_000_000;
    let mut p = still_bird(limit, -limit);
    p.velocity = Velocity { x: 2880, y: -2880 };
    let mut w = playing_world(Some(p), vec![], 1);
    movable_system(&mut w);
    let p2 = w.player.unwrap();
    assert_eq!(p2.x, limit);
    assert_eq!(p2.y, -limit);
}

#[test]
fn ground_scrolls_and_wraps() {
    // the strip starts at one full tile of accumulated offset
    let mut g = Ground { offset: 48 * PX, x: 0 };
    ground_move_system(&mut g);
    assert_eq!(g.x, -(48 * PX + PX));
    assert_eq!(g.offset, PX); // wrapped at the tile width
    ground_move_system(&mut g);
    assert_eq!(g.x, -(2 * PX));
    assert_eq!(g.offset, 2 * PX);
}
