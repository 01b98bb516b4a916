//! Bullets, and the factory that the alien gets them from.

use vstd::prelude::*;
use crate::simple_collision::{CollisionRect, Rect};
use crate::sprite::Footprint;
use crate::units::{saturate, shifted_up, travel};

verus! {

/// Steps a bullet falls per millisecond, which is also distance units per
/// second.
pub const BULLET_VELOCITY: u64 = 500;

/// Red bullets end the game, green ones score.
#[derive(Debug, Eq, PartialEq, Copy, Clone)]
pub enum BulletColor {
    Red,
    Green,
}

/// One shot of the alien's, on its way down.
#[derive(Debug, Eq, PartialEq, Copy, Clone)]
pub struct Bullet {
    pub pos: (i64, i64),
    pub color: BulletColor,
    pub sprite: Footprint,
}

impl Bullet {
    /// This bullet after falling for `time_passed` milliseconds.
    pub open spec fn moved_down(self, time_passed: u64) -> Bullet {
        Bullet { pos: (self.pos.0, saturate(self.pos.1 + BULLET_VELOCITY * time_passed)), ..self }
    }

    /// Catching this bullet ends the game.
    pub open spec fn lethal(self) -> bool {
        self.color != BulletColor::Green
    }

    /// Where the middle of the bullet is.
    pub fn pos(&self) -> (pos: (i64, i64))
        ensures
            pos == self.pos,
    {
        self.pos
    }

    /// Lets the bullet fall for `time_passed` milliseconds. It never rises.
    pub fn move_down(&mut self, time_passed: u64)
        ensures
            *final(self) == old(self).moved_down(time_passed),
            final(self).pos.1 >= old(self).pos.1,
    {
        self.pos = (self.pos.0, shifted_up(self.pos.1, travel(BULLET_VELOCITY, time_passed)));
    }

    /// Whether catching this bullet ends the game. Every bullet that is
    /// not green is deadly.
    pub fn deadly(&self) -> (deadly: bool)
        ensures
            deadly == self.lethal(),
    {
        match self.color {
            BulletColor::Green => false,
            BulletColor::Red => true,
        }
    }
}

/// A factory for producing bullets, so that what a bullet looks like is
/// settled in one place and does not leak to whoever fires it.
pub trait BulletFactory {
    /// The bullet that `red_bullet` makes at `pos`.
    spec fn red(&self, pos: (i64, i64)) -> Bullet;

    /// The bullet that `green_bullet` makes at `pos`.
    spec fn green(&self, pos: (i64, i64)) -> Bullet;

    /// Produces a red bullet. Not safe to catch.
    fn red_bullet(&mut self, pos: (i64, i64)) -> (bullet: Bullet)
        ensures
            bullet == old(self).red(pos),
            bullet.pos == pos,
            bullet.lethal(),
    ;

    /// Produces a green bullet. Not safe to not catch.
    fn green_bullet(&mut self, pos: (i64, i64)) -> (bullet: Bullet)
        ensures
            bullet == old(self).green(pos),
            bullet.pos == pos,
            !bullet.lethal(),
    ;
}

/// Simple bullet factory that knows the sprite of each color.
pub struct BulletFactoryImpl {
    /// The sprite to use for a red bullet.
    pub red_sprite: Footprint,
    /// The sprite to use for a green bullet.
    pub green_sprite: Footprint,
}

impl BulletFactory for BulletFactoryImpl {
    open spec fn red(&self, pos: (i64, i64)) -> Bullet {
        Bullet { pos, color: BulletColor::Red, sprite: self.red_sprite }
    }

    open spec fn green(&self, pos: (i64, i64)) -> Bullet {
        Bullet { pos, color: BulletColor::Green, sprite: self.green_sprite }
    }

    fn red_bullet(&mut self, pos: (i64, i64)) -> (bullet: Bullet)
        ensures
            *final(self) == *old(self),
    {
        Bullet { pos, color: BulletColor::Red, sprite: self.red_sprite }
    }

    fn green_bullet(&mut self, pos: (i64, i64)) -> (bullet: Bullet)
        ensures
            *final(self) == *old(self),
    {
        Bullet { pos, color: BulletColor::Green, sprite: self.green_sprite }
    }
}

impl CollisionRect for Bullet {
    open spec fn rect(&self) -> Rect {
        self.sprite.centered_at(self.pos)
    }

    fn top_left_x(&self) -> (x: i64) {
        self.sprite.left_edge(self.pos.0)
    }

    fn top_left_y(&self) -> (y: i64) {
        self.sprite.top_edge(self.pos.1)
    }

    fn width(&self) -> (w: i64) {
        self.sprite.width_steps()
    }

    fn height(&self) -> (h: i64) {
        self.sprite.height_steps()
    }
}

} // verus!
