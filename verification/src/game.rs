//! Game state owned by the frame loop: score, lifecycle state and the
//! frame counter that limits logic ticks to every few render frames.

use vstd::prelude::*;

verus! {

/// How many frames pass between logic ticks is derived from this speed.
const SPEED: u8 = 8;

/// The four axis-aligned movement directions.
#[derive(Clone, Copy, Debug, PartialEq, Eq, Structural)]
pub enum Direction {
    Up,
    Down,
    Left,
    Right,
}

/// The lifecycle of a game round.
#[derive(Clone, Copy, Debug, PartialEq, Eq, Structural)]
pub enum GameState {
    Startup,
    Running,
    Paused,
    GameOver,
}

pub struct Game {
    pub score: i32,
    pub state: GameState,
    pub frame_num: i32,
    pub speed: u8,
}

impl Game {
    /// The speed is positive, so the frame threshold divides by a non-zero value.
    pub open spec fn wf(&self) -> bool {
        self.speed >= 1
    }

    /// Render frames per logic tick: the frame counter wraps to zero once
    /// it has passed this threshold.
    pub open spec fn frame_threshold(&self) -> int {
        10int / (self.speed as int)
    }

    pub fn new() -> (g: Game)
        ensures
            g.score == 0,
            g.state == GameState::Startup,
            g.frame_num == 0,
            g.speed == 8,
            g.wf(),
    {
        Game { score: 0, state: GameState::Startup, frame_num: 0, speed: SPEED }
    }

    pub fn increase_score(&mut self)
        requires
            old(self).score < i32::MAX,
        ensures
            *final(self) == (Game { score: (old(self).score + 1) as i32, ..*old(self) }),
    {
        self.score = self.score + 1;
    }

    /// Advance the frame counter by one, wrapping it back to zero once it
    /// has passed the tick threshold.
    pub fn increase_frame_num(&mut self)
        requires
            old(self).wf(),
        ensures
            final(self).frame_num == if old(self).frame_num > old(self).frame_threshold() {
                0
            } else {
                old(self).frame_num + 1
            },
            final(self).score == old(self).score,
            final(self).state == old(self).state,
            final(self).speed == old(self).speed,
    {
        if self.frame_num > 10 / (self.speed as i32) {
            self.frame_num = self.frame_num - self.frame_num;
        } else {
            self.frame_num = self.frame_num + 1;
        }
    }

    pub fn game_over(&mut self)
        ensures
            *final(self) == (Game { state: GameState::GameOver, ..*old(self) }),
    {
        self.state = GameState::GameOver;
    }

    /// Start a fresh round: score and frame counter reset, state running.
    pub fn restart(&mut self)
        ensures
            final(self).score == 0,
            final(self).state == GameState::Running,
            final(self).frame_num == 0,
            final(self).speed == old(self).speed,
    {
        self.score = 0;
        self.state = GameState::Running;
        self.frame_num = 0;
    }
}

} // verus!
