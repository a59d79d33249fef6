//! The game-flow state machine.
//!
//! Exactly one state is active at a time; transitions are driven by the
//! input actions of one frame and by whether the player collided during
//! that frame.

use vstd::prelude::*;

verus! {

/// The four flow states.  `Menu` is the initial state.
#[derive(Clone, Copy, Debug, PartialEq, Eq, Structural)]
pub enum GameState {
    Menu,
    InGame,
    Paused,
    GameOver,
}

impl Default for GameState {
    fn default() -> (r: Self)
        ensures
            r == GameState::Menu,
    {
        GameState::Menu
    }
}

/// The abstracted input actions of one frame.
///
/// `flap` is edge-triggered: it fires once per press-release cycle.  The
/// others are level-triggered: they hold for every frame the key is down.
#[derive(Clone, Copy, Debug, PartialEq, Eq, Structural)]
pub struct InputState {
    /// Flap action, edge-triggered (fired on release this frame).
    pub flap: bool,
    /// Flap key held this frame (level-triggered restart from game over).
    pub flap_held: bool,
    /// Pause key held this frame.
    pub pause: bool,
    /// Resume key held this frame.
    pub resume: bool,
    /// To-menu key held this frame.
    pub menu: bool,
}

/// The transition table.  From `InGame`, a collision outranks the pause
/// key; from `GameOver`, the to-menu key outranks the flap key.  Every
/// pair not listed stays where it is.
pub open spec fn spec_next_state(s: GameState, input: InputState, collided: bool) -> GameState {
    match s {
        GameState::Menu => if input.flap {
            GameState::InGame
        } else {
            GameState::Menu
        },
        GameState::InGame => if collided {
            GameState::GameOver
        } else if input.pause {
            GameState::Paused
        } else {
            GameState::InGame
        },
        GameState::Paused => if input.resume {
            GameState::InGame
        } else {
            GameState::Paused
        },
        GameState::GameOver => if input.menu {
            GameState::Menu
        } else if input.flap_held {
            GameState::InGame
        } else {
            GameState::GameOver
        },
    }
}

/// Computes [`spec_next_state`] on machine values.
pub fn next_game_state(s: GameState, input: &InputState, collided: bool) -> (r: GameState)
    ensures
        r == spec_next_state(s, *input, collided),
{
    match s {
        GameState::Menu => if input.flap {
            GameState::InGame
        } else {
            GameState::Menu
        },
        GameState::InGame => if collided {
            GameState::GameOver
        } else if input.pause {
            GameState::Paused
        } else {
            GameState::InGame
        },
        GameState::Paused => if input.resume {
            GameState::InGame
        } else {
            GameState::Paused
        },
        GameState::GameOver => if input.menu {
            GameState::Menu
        } else if input.flap_held {
            GameState::InGame
        } else {
            GameState::GameOver
        },
    }
}

/// Closure of the state machine: whenever the state changes, the change
/// is one of the six rows of the transition table, under exactly the
/// trigger that row names.  In particular, no action moves the machine
/// from `Menu` other than a flap, and nothing leaves `Paused` but the
/// resume key.
pub proof fn lemma_state_machine_closure(s: GameState, input: InputState, collided: bool)
    ensures
        ({
            let t = spec_next_state(s, input, collided);
            ||| t == s
            ||| (s == GameState::Menu && input.flap && t == GameState::InGame)
            ||| (s == GameState::InGame && collided && t == GameState::GameOver)
            ||| (s == GameState::InGame && !collided && input.pause && t == GameState::Paused)
            ||| (s == GameState::Paused && input.resume && t == GameState::InGame)
            ||| (s == GameState::GameOver && input.menu && t == GameState::Menu)
            ||| (s == GameState::GameOver && !input.menu && input.flap_held && t
                == GameState::InGame)
        }),
{
}

/// A collision can only ever move the machine out of `InGame`; in every
/// other state the collision flag is ignored.
pub proof fn lemma_collision_only_matters_in_game(s: GameState, input: InputState)
    ensures
        s != GameState::InGame ==> spec_next_state(s, input, true) == spec_next_state(
            s,
            input,
            false,
        ),
{
}

} // verus!
