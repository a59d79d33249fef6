//! The game-flow state machine and whole-frame scenarios.

use flappy_bird::components::{Movable, Obstacle, Player, Velocity};
use flappy_bird::constants::PX;
use flappy_bird::resource::{GameData, WinSize};
use flappy_bird::state::{next_game_state, GameState, InputState};
use flappy_bird::state::GameState::{GameOver, InGame, Menu, Paused};
use flappy_bird::world::{frame, GameWorld, UiState};

fn win() -> WinSize {
    WinSize { width: 576 * PX, height: 624 * PX }
}

fn no_input() -> InputState {
    InputState { flap: false, flap_held: false, pause: false, resume: false, menu: false }
}

fn flap() -> InputState {
    InputState { flap: true, ..no_input() }
}

#[test]
fn transition_table_is_closed() {
    let pause = InputState { pause: true, ..no_input() };
    let resume = InputState { resume: true, ..no_input() };
    let menu = InputState { menu: true, ..no_input() };
    let restart = InputState { flap_held: true, ..no_input() };

    // the six rows of the table
    assert_eq!(next_game_state(Menu, &flap(), false), InGame);
    assert_eq!(next_game_state(InGame, &no_input(), true), GameOver);
    assert_eq!(next_game_state(InGame, &pause, false), Paused);
    assert_eq!(next_game_state(Paused, &resume, false), InGame);
    assert_eq!(next_game_state(GameOver, &menu, false), Menu);
    assert_eq!(next_game_state(GameOver, &restart, false), InGame);

    // nothing else moves the machine
    assert_eq!(next_game_state(Menu, &pause, false), Menu);
    assert_eq!(next_game_state(Menu, &resume, false), Menu);
    assert_eq!(next_game_state(Menu, &menu, false), Menu);
    assert_eq!(next_game_state(Menu, &restart, false), Menu);
    assert_eq!(next_game_state(Menu, &no_input(), false), Menu);
    assert_eq!(next_game_state(InGame, &flap(), false), InGame);
    assert_eq!(next_game_state(InGame, &resume, false), InGame);
    assert_eq!(next_game_state(InGame, &menu, false), InGame);
    assert_eq!(next_game_state(Paused, &flap(), false), Paused);
    assert_eq!(next_game_state(Paused, &pause, false), Paused);
    assert_eq!(next_game_state(Paused, &menu, false), Paused);
    assert_eq!(next_game_state(GameOver, &pause, false), GameOver);
    assert_eq!(next_game_state(GameOver, &resume, false), GameOver);
    assert_eq!(next_game_state(GameOver, &no_input(), false), GameOver);

    // a collision only matters while playing; to-menu outranks restart
    assert_eq!(next_game_state(Menu, &no_input(), true), Menu);
    assert_eq!(next_game_state(Paused, &no_input(), true), Paused);
    assert_eq!(next_game_state(GameOver, &no_input(), true), GameOver);
    let both = InputState { menu: true, flap_held: true, ..no_input() };
    assert_eq!(next_game_state(GameOver, &both, false), Menu);
    // while playing, a collision outranks the pause key
    assert_eq!(next_game_state(InGame, &pause, true), GameOver);
}

#[test]
fn menu_ignores_pause_key() {
    let mut w = GameWorld::new(win());
    let pause = InputState { pause: true, ..no_input() };
    let _ = frame(&mut w, &pause);
    assert_eq!(w.state, GameState::Menu);
    assert!(w.player.is_none());
    assert!(w.ui.display_menu);
}

#[test]
fn menu_flap_starts_game() {
    let mut w = GameWorld::new(win());
    let cues = frame(&mut w, &flap());
    assert_eq!(w.state, GameState::InGame);
    // exactly one player, at its spawn point
    let p = w.player.expect("player spawned");
    assert_eq!(p.x, -(576 * PX / 8));
    assert_eq!(p.y, 624 * PX / 6);
    assert_eq!(p.velocity.x, 0);
    assert_eq!(p.velocity.y, 0);
    assert!(p.movable.need_rotation);
    // two pipe pairs pre-seeded ahead of the player
    assert_eq!(w.obstacles.len(), 4);
    assert_eq!(w.obstacles[0].x, 576 * PX / 2 + 52 * PX / 2 - 52 * PX);
    assert_eq!(w.obstacles[2].x, w.obstacles[0].x - 240 * 2880);
    assert!(w.data.player_alive());
    assert_eq!(w.data.get_score(), 0);
    // displays follow the state; no menu cue sounds
    assert!(!w.ui.display_menu);
    assert!(w.ui.display_score);
    assert!(!cues.fly && !cues.point && !cues.hit && !cues.die);
}

#[test]
fn pause_and_resume() {
    let mut w = GameWorld::new(win());
    let _ = frame(&mut w, &flap());
    assert_eq!(w.state, GameState::InGame);
    let n = w.obstacles.len();
    let pause = InputState { pause: true, ..no_input() };
    let _ = frame(&mut w, &pause);
    assert_eq!(w.state, GameState::Paused);
    assert!(w.ui.display_paused);
    assert!(!w.ui.display_score);
    // paused frames freeze the simulation
    let p_before = w.player.unwrap();
    let _ = frame(&mut w, &no_input());
    assert_eq!(w.state, GameState::Paused);
    assert_eq!(w.player.unwrap(), p_before);
    // resume re-enters play, and entering play always re-seeds the field
    let resume = InputState { resume: true, ..no_input() };
    let _ = frame(&mut w, &resume);
    assert_eq!(w.state, GameState::InGame);
    assert!(w.ui.display_score);
    assert_eq!(w.player.unwrap(), p_before); // still the same, alive player
    assert_eq!(w.obstacles.len(), n + 4); // the field is re-seeded on re-entry
}

#[test]
fn end_to_end_menu_to_game_over() {
    let mut w = GameWorld::new(win());
    let _ = frame(&mut w, &flap());
    assert_eq!(w.state, GameState::InGame);
    assert_eq!(w.obstacles.len(), 4);
    assert_eq!(w.data.get_score(), 0);
    // flapping every frame drives the player over the ceiling
    let mut frames = 0;
    while w.state == GameState::InGame {
        let cues = frame(&mut w, &flap());
        frames += 1;
        assert!(cues.fly);
        assert!(frames < 100, "never hit the ceiling");
        if w.state == GameState::GameOver {
            assert!(cues.hit && cues.die);
        }
    }
    assert_eq!(w.state, GameState::GameOver);
    // the ceiling was really crossed
    assert!(w.player.unwrap().y >= 624 * PX / 2);
    // the display captured the score at entry
    assert_eq!(w.ui.display_game_over, Some(0));
    assert_eq!(w.data.get_score(), 0);
    // entities survive for the game-over presentation
    assert!(w.player.is_some());
    assert_eq!(w.obstacles.len(), 4);
}

#[test]
fn game_over_to_menu_clears_entities() {
    let mut w = GameWorld::new(win());
    let _ = frame(&mut w, &flap());
    while w.state == GameState::InGame {
        let _ = frame(&mut w, &flap());
    }
    let menu = InputState { menu: true, ..no_input() };
    let _ = frame(&mut w, &menu);
    assert_eq!(w.state, GameState::Menu);
    assert!(w.player.is_none());
    assert!(w.obstacles.is_empty());
    assert!(!w.data.player_alive());
    assert_eq!(w.data.get_score(), 0);
    assert!(w.ui.display_menu);
    assert_eq!(w.ui.display_game_over, None);
}

#[test]
fn game_over_restart_spawns_fresh_game() {
    let mut w = GameWorld::new(win());
    let _ = frame(&mut w, &flap());
    let first_player_id = w.player.unwrap().id;
    while w.state == GameState::InGame {
        let _ = frame(&mut w, &flap());
    }
    let restart = InputState { flap_held: true, ..no_input() };
    let _ = frame(&mut w, &restart);
    assert_eq!(w.state, GameState::InGame);
    let p = w.player.expect("fresh player");
    assert_ne!(p.id, first_player_id);
    assert_eq!(p.y, 624 * PX / 6);
    assert_eq!(w.obstacles.len(), 4); // old field cleared, new one seeded
    assert_eq!(w.data.get_score(), 0);
    assert!(w.data.player_alive());
}

#[test]
fn game_over_captures_score_then_resets() {
    // a playing world with score 5 and the player on the ceiling
    let mut data = GameData::new();
    data.alive();
    for _ in 0..5 {
        data.add_score();
    }
    let mut w = GameWorld::new(win());
    w.state = GameState::InGame;
    w.ui = UiState {
        display_menu: false,
        display_score: true,
        display_paused: false,
        display_game_over: None,
    };
    w.data = data;
    w.player = Some(Player {
        id: 0,
        x: -259200,
        y: 624 * PX / 2 + PX,
        rotation: 0,
        velocity: Velocity { x: 0, y: 0 },
        movable: Movable { need_rotation: true },
    });
    w.next_id = 1;
    let cues = frame(&mut w, &no_input());
    assert_eq!(w.state, GameState::GameOver);
    assert!(cues.hit && cues.die);
    // captured for display before any reset
    assert_eq!(w.ui.display_game_over, Some(5));
    assert_eq!(w.data.get_score(), 5);
    // the first game-over frame then resets the session
    let _ = frame(&mut w, &no_input());
    assert_eq!(w.data.get_score(), 0);
    assert!(!w.data.player_alive());
    assert_eq!(w.ui.display_game_over, Some(5)); // display keeps the capture
}

#[test]
fn obstacle_overlap_ends_game() {
    let mut w = GameWorld::new(win());
    w.state = GameState::InGame;
    w.ui = UiState {
        display_menu: false,
        display_score: true,
        display_paused: false,
        display_game_over: None,
    };
    let mut data = GameData::new();
    data.alive();
    w.data = data;
    w.player = Some(Player {
        id: 0,
        x: 0,
        y: 0,
        rotation: 0,
        velocity: Velocity { x: 0, y: 0 },
        movable: Movable { need_rotation: false },
    });
    w.obstacles = vec![Obstacle {
        id: 1,
        x: 10000,
        y: 10000,
        flip_y: false,
        velocity: Velocity { x: 0, y: 0 },
        movable: Movable { need_rotation: false },
    }];
    w.next_id = 2;
    let cues = frame(&mut w, &no_input());
    assert_eq!(w.state, GameState::GameOver);
    assert!(cues.hit && cues.die);
}
