//! The player's ship.
use vstd::prelude::*;
use crate::constants::{HALF_PLAYER_WIDTH, PIXEL, PLAYER_SPEED, SCREEN_WIDTH};

verus! {

/// Leftmost x the player's centre may take.
pub const PLAYER_MIN_X: i64 = HALF_PLAYER_WIDTH;

/// Rightmost x the player's centre may take.
pub const PLAYER_MAX_X: i64 = SCREEN_WIDTH * PIXEL - HALF_PLAYER_WIDTH;

/// x at which the player starts: the middle of the field.
pub const PLAYER_START_X: i64 = 400 * PIXEL;

/// Keeps an x position inside the player's range.
pub open spec fn clamp_player_x(v: int) -> i64 {
    if v < PLAYER_MIN_X {
        PLAYER_MIN_X
    } else if v > PLAYER_MAX_X {
        PLAYER_MAX_X
    } else {
        v as i64
    }
}

/// Horizontal velocity, in pixels per second, for the held keys: left then
/// right are applied, so holding both cancels out.
pub open spec fn velocity(left: bool, right: bool) -> int {
    (if left { -PLAYER_SPEED } else { 0 }) + (if right { PLAYER_SPEED } else { 0 })
}

/// The player's ship: only its horizontal position changes.
#[derive(Debug, Clone, Copy, PartialEq, Eq, Structural)]
pub struct Player {
    /// x position of the centre, in position units.
    pub x: i64,
}

impl Player {
    /// The player at the start of a session.
    pub open spec fn spec_start() -> Player {
        Player { x: PLAYER_START_X }
    }

    /// The player after `dt` milliseconds with the given keys held.
    pub open spec fn moved(self, left: bool, right: bool, dt: u32) -> Player {
        Player { x: clamp_player_x(self.x + velocity(left, right) * dt) }
    }

    /// Whether the player's x lies in its range.
    pub open spec fn in_range(self) -> bool {
        PLAYER_MIN_X <= self.x <= PLAYER_MAX_X
    }

    /// A player in the middle of the field.
    pub fn new() -> (r: Player)
        ensures
            r == Player::spec_start(),
            r.in_range(),
    {
        Player { x: PLAYER_START_X }
    }

    /// Moves the player for `dt` milliseconds and clamps it to its range.
    pub fn update(&mut self, left: bool, right: bool, dt: u32)
        ensures
            *final(self) == old(self).moved(left, right, dt),
            final(self).in_range(),
    {
        let mut v: i128 = 0;
        if left {
            v = v - PLAYER_SPEED as i128;
        }
        if right {
            v = v + PLAYER_SPEED as i128;
        }
        assert(-300 * 0xffff_ffff <= v * dt <= 300 * 0xffff_ffff) by (nonlinear_arith)
            requires
                -300 <= v <= 300,
                0 <= dt <= 0xffff_ffff,
        ;
        let target: i128 = self.x as i128 + v * dt as i128;
        self.x = if target < PLAYER_MIN_X as i128 {
            PLAYER_MIN_X
        } else if target > PLAYER_MAX_X as i128 {
            PLAYER_MAX_X
        } else {
            target as i64
        };
    }
}

} // verus!
