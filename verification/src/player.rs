//! The player: moves left and right as the keys say.

use vstd::prelude::*;
use crate::simple_collision::{CollisionRect, Rect};
use crate::sprite::Footprint;
use crate::units::{saturate, shifted_down, shifted_up, travel};

verus! {

/// Steps the player moves per millisecond, which is also distance units per
/// second.
pub const PLAYER_SPEED: u64 = 1000;

/// What the player wants to do during a tick.
#[derive(Debug, Default, Copy, Clone, PartialEq, Eq)]
pub enum PlayerIntent {
    MoveLeft,
    MoveRight,
    #[default]
    StayStill,
}

/// The player's ship.
#[derive(Debug, Copy, Clone, PartialEq, Eq)]
pub struct Player {
    pub pos: (i64, i64),
    pub sprite: Footprint,
}

impl CollisionRect for Player {
    open spec fn rect(&self) -> Rect {
        self.sprite.centered_at(self.pos)
    }

    fn top_left_x(&self) -> (x: i64) {
        self.sprite.left_edge(self.pos.0)
    }

    fn top_left_y(&self) -> (y: i64) {
        self.sprite.top_edge(self.pos.1)
    }

    fn width(&self) -> (w: i64) {
        self.sprite.width_steps()
    }

    fn height(&self) -> (h: i64) {
        self.sprite.height_steps()
    }
}

impl Player {
    /// The player after following `intent` for `dt` milliseconds. Nothing
    /// keeps the player on the screen.
    pub open spec fn moved(self, intent: PlayerIntent, dt: u64) -> Player {
        match intent {
            PlayerIntent::StayStill => self,
            PlayerIntent::MoveLeft => Player {
                pos: (saturate(self.pos.0 - PLAYER_SPEED * dt), self.pos.1),
                ..self
            },
            PlayerIntent::MoveRight => Player {
                pos: (saturate(self.pos.0 + PLAYER_SPEED * dt), self.pos.1),
                ..self
            },
        }
    }

    /// A player whose middle is at `pos`.
    pub fn starting_at(pos: (i64, i64), sprite: Footprint) -> (player: Player)
        ensures
            player == (Player { pos, sprite }),
    {
        Player { pos, sprite }
    }

    /// Moves the player as `player_intent` says, for `dt` milliseconds.
    pub fn execute_intent(&mut self, player_intent: &PlayerIntent, dt: u64)
        ensures
            *final(self) == old(self).moved(*player_intent, dt),
    {
        match *player_intent {
            PlayerIntent::StayStill => {},
            PlayerIntent::MoveLeft => {
                self.pos = (shifted_down(self.pos.0, travel(PLAYER_SPEED, dt)), self.pos.1);
            },
            PlayerIntent::MoveRight => {
                self.pos = (shifted_up(self.pos.0, travel(PLAYER_SPEED, dt)), self.pos.1);
            },
        }
    }
}

} // verus!
