//! What the simulation knows of a sprite: how much room it takes.

use vstd::prelude::*;
use crate::simple_collision::Rect;
use crate::units::{saturate, shifted_down, travel, STEPS_PER_UNIT};

verus! {

/// The size of a sprite in whole distance units.
#[derive(Clone, Copy, Debug, PartialEq, Eq)]
pub struct Footprint {
    pub width: u32,
    pub height: u32,
}

impl Footprint {
    /// The box of this size whose middle is `pos`.
    pub open spec fn centered_at(self, pos: (i64, i64)) -> Rect {
        Rect {
            x: saturate(pos.0 - (STEPS_PER_UNIT / 2) * self.width) as int,
            y: saturate(pos.1 - (STEPS_PER_UNIT / 2) * self.height) as int,
            w: STEPS_PER_UNIT * self.width,
            h: STEPS_PER_UNIT * self.height,
        }
    }

    /// The left edge of the box whose middle is at `center_x`.
    pub fn left_edge(&self, center_x: i64) -> (x: i64)
        ensures
            x == self.centered_at((center_x, 0i64)).x,
    {
        shifted_down(center_x, travel(STEPS_PER_UNIT / 2, self.width as u64))
    }

    /// The top edge of the box whose middle is at `center_y`.
    pub fn top_edge(&self, center_y: i64) -> (y: i64)
        ensures
            y == self.centered_at((0i64, center_y)).y,
    {
        shifted_down(center_y, travel(STEPS_PER_UNIT / 2, self.height as u64))
    }

    /// The width in steps.
    pub fn width_steps(&self) -> (w: i64)
        ensures
            w == STEPS_PER_UNIT * self.width,
    {
        STEPS_PER_UNIT as i64 * self.width as i64
    }

    /// The height in steps.
    pub fn height_steps(&self) -> (h: i64)
        ensures
            h == STEPS_PER_UNIT * self.height,
    {
        STEPS_PER_UNIT as i64 * self.height as i64
    }
}

} // verus!
