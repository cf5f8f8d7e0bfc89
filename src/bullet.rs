//! Bullets fired by the player.
use vstd::prelude::*;
use crate::constants::BULLET_SPEED;
use crate::enemy::{saturate, saturate_i128};

verus! {

/// A bullet travelling up the field.
#[derive(Debug, Clone, Copy, PartialEq, Eq, Structural)]
pub struct Bullet {
    /// x position, in position units.
    pub x: i64,
    /// y position, in position units.
    pub y: i64,
}

impl Bullet {
    /// The bullet after rising for `dt` milliseconds.
    pub open spec fn moved(self, dt: u32) -> Bullet {
        Bullet { x: self.x, y: saturate(self.y - BULLET_SPEED * dt) }
    }

    /// A bullet at the given position.
    pub fn new(x: i64, y: i64) -> (r: Bullet)
        ensures
            r == (Bullet { x, y }),
    {
        Bullet { x, y }
    }

    /// Moves the bullet up by its speed times `dt` milliseconds.
    pub fn update(&mut self, dt: u32)
        ensures
            *final(self) == old(self).moved(dt),
    {
        assert(0 <= BULLET_SPEED as int * dt as int <= 500 * 0xffff_ffff) by (nonlinear_arith)
            requires
                BULLET_SPEED == 500,
        ;
        let step: i128 = BULLET_SPEED as i128 * dt as i128;
        self.y = saturate_i128(self.y as i128 - step);
    }

    /// Whether the bullet has left the top of the field.
    pub fn is_out_of_bounds(&self) -> (r: bool)
        ensures
            r == (self.y < 0),
    {
        self.y < 0
    }
}

} // verus!
