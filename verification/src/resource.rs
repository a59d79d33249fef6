//! Session-wide resources: the game session data and the window metrics.

use vstd::prelude::*;

use crate::constants::{BACKGROUND_HEIGHT, DIM_LIMIT};

verus! {

/// The game session: the score, whether a player entity is alive, and the
/// edge-triggered request for a fresh obstacle pair.
#[derive(Clone, Copy, Debug, PartialEq, Eq, Structural)]
pub struct GameData {
    score: u8,
    alive: bool,
    need_add_obstacle: bool,
}

impl GameData {
    /// The current score.
    pub closed spec fn spec_score(self) -> u8 {
        self.score
    }

    /// Whether a player entity is alive.
    pub closed spec fn spec_alive(self) -> bool {
        self.alive
    }

    /// Whether an obstacle spawn has been requested and not yet served.
    pub closed spec fn spec_need_spawn(self) -> bool {
        self.need_add_obstacle
    }

    /// A fresh session: score zero, no player, no pending spawn request.
    pub fn new() -> (r: Self)
        ensures
            r.spec_score() == 0,
            !r.spec_alive(),
            !r.spec_need_spawn(),
    {
        Self { score: 0, alive: false, need_add_obstacle: false }
    }

    /// Reads the pending obstacle-spawn request.
    pub fn need_spawn_obstacle(&self) -> (r: bool)
        ensures
            r == self.spec_need_spawn(),
    {
        self.need_add_obstacle
    }

    /// Clears the obstacle-spawn request once it has been served.
    pub fn obstacle_call_back(&mut self)
        ensures
            !final(self).spec_need_spawn(),
            final(self).spec_score() == old(self).spec_score(),
            final(self).spec_alive() == old(self).spec_alive(),
    {
        self.need_add_obstacle = false;
    }

    /// Requests that a fresh obstacle pair be spawned.
    pub fn call_obstacle_spawn(&mut self)
        ensures
            final(self).spec_need_spawn(),
            final(self).spec_score() == old(self).spec_score(),
            final(self).spec_alive() == old(self).spec_alive(),
    {
        self.need_add_obstacle = true;
    }

    /// Records that a player entity now exists.
    pub fn alive(&mut self)
        ensures
            final(self).spec_alive(),
            final(self).spec_score() == old(self).spec_score(),
            final(self).spec_need_spawn() == old(self).spec_need_spawn(),
    {
        self.alive = true;
    }

    /// The session after a death: no player alive, score reset to zero,
    /// the spawn request as it was.
    pub closed spec fn spec_with_death(self) -> GameData {
        GameData { score: 0, alive: false, ..self }
    }

    /// Records the player's death: the alive flag is cleared and the score
    /// is reset to zero.
    pub fn death(&mut self)
        ensures
            *final(self) == old(self).spec_with_death(),
            !final(self).spec_alive(),
            final(self).spec_score() == 0,
            final(self).spec_need_spawn() == old(self).spec_need_spawn(),
    {
        self.alive = false;
        self.score = 0;
    }

    /// The current score.
    pub fn get_score(&self) -> (r: u8)
        ensures
            r == self.spec_score(),
    {
        self.score
    }

    /// Adds one point.  The score saturates instead of wrapping.
    pub fn add_score(&mut self)
        ensures
            final(self).spec_score() == if old(self).spec_score() < 255 {
                old(self).spec_score() + 1
            } else {
                255int
            },
            final(self).spec_alive() == old(self).spec_alive(),
            final(self).spec_need_spawn() == old(self).spec_need_spawn(),
    {
        if self.score < 255 {
            self.score = self.score + 1;
        }
    }

    /// Whether a player entity is alive.
    pub fn player_alive(&self) -> (r: bool)
        ensures
            r == self.spec_alive(),
    {
        self.alive
    }
}

/// Window metrics in sub-pixel units, supplied once at startup.
#[derive(Clone, Copy, Debug, PartialEq, Eq, Structural)]
pub struct WinSize {
    pub width: i64,
    pub height: i64,
}

impl WinSize {
    /// A playable window: positive, bounded, of even height (so that half
    /// heights are exact) and at least as tall as the background sprite.
    pub open spec fn wf(self) -> bool {
        &&& 0 < self.width <= DIM_LIMIT
        &&& BACKGROUND_HEIGHT <= self.height <= DIM_LIMIT
        &&& self.height % 2 == 0
    }

    /// Decides [`WinSize::wf`] at run time.
    pub fn is_valid(&self) -> (r: bool)
        ensures
            r == self.wf(),
    {
        0 < self.width && self.width <= DIM_LIMIT && BACKGROUND_HEIGHT <= self.height
            && self.height <= DIM_LIMIT && self.height % 2 == 0
    }
}

} // verus!
