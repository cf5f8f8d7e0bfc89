//! Enemies and their per-type behaviour table.
use vstd::prelude::*;
use crate::constants::{DEFENDER_LINE, DEFENDER_Y, PIXEL, SCREEN_HEIGHT};

verus! {

/// Enemy type: decides health, speed and point value.
#[derive(Debug, Clone, Copy, PartialEq, Eq, Structural)]
pub enum EnemyType {
    /// One hit, normal speed, 10 points.
    Standard,
    /// One hit, one and a half times the speed, 20 points.
    Fast,
    /// Three hits, seven tenths of the speed, 50 points.
    Tank,
    /// One hit, normal speed, 30 points.
    Swooper,
}

impl EnemyType {
    /// Health table: Tank 3, every other type 1.
    pub open spec fn spec_max_health(self) -> u32 {
        match self {
            EnemyType::Standard => 1,
            EnemyType::Fast => 1,
            EnemyType::Tank => 3,
            EnemyType::Swooper => 1,
        }
    }

    /// Speed table, in percent of the base speed.
    pub open spec fn spec_speed_multiplier(self) -> u32 {
        match self {
            EnemyType::Standard => 100,
            EnemyType::Fast => 150,
            EnemyType::Tank => 70,
            EnemyType::Swooper => 100,
        }
    }

    /// Point table.
    pub open spec fn spec_points(self) -> u32 {
        match self {
            EnemyType::Standard => 10,
            EnemyType::Fast => 20,
            EnemyType::Tank => 50,
            EnemyType::Swooper => 30,
        }
    }

    /// Hits this type takes before it is destroyed.
    pub fn max_health(self) -> (r: u32)
        ensures
            r == self.spec_max_health(),
    {
        match self {
            EnemyType::Standard => 1,
            EnemyType::Fast => 1,
            EnemyType::Tank => 3,
            EnemyType::Swooper => 1,
        }
    }

    /// Speed of this type relative to the base speed, in percent.
    pub fn speed_multiplier(self) -> (r: u32)
        ensures
            r == self.spec_speed_multiplier(),
    {
        match self {
            EnemyType::Standard => 100,
            EnemyType::Fast => 150,
            EnemyType::Tank => 70,
            EnemyType::Swooper => 100,
        }
    }

    /// Points scored for destroying an enemy of this type.
    pub fn points(self) -> (r: u32)
        ensures
            r == self.spec_points(),
    {
        match self {
            EnemyType::Standard => 10,
            EnemyType::Fast => 20,
            EnemyType::Tank => 50,
            EnemyType::Swooper => 30,
        }
    }
}

/// Clamps an integer into the range of `i64`.
pub open spec fn saturate(v: int) -> i64 {
    if v > i64::MAX {
        i64::MAX
    } else if v < i64::MIN {
        i64::MIN
    } else {
        v as i64
    }
}

/// Sign of a direction value: the formation moves right for a positive one.
pub open spec fn heading(d: i64) -> int {
    if d > 0 {
        1
    } else if d < 0 {
        -1
    } else {
        0
    }
}

/// Distance in position units covered in `dt` milliseconds at `speed`
/// pixels per second scaled by `percent`.
pub open spec fn travel(speed: int, percent: int, dt: int) -> int {
    speed * percent * dt / 100
}

/// Clamps an `i128` into the range of `i64`.
pub(crate) fn saturate_i128(v: i128) -> (r: i64)
    ensures
        r == saturate(v as int),
{
    if v > i64::MAX as i128 {
        i64::MAX
    } else if v < i64::MIN as i128 {
        i64::MIN
    } else {
        v as i64
    }
}

/// An enemy of the formation.
#[derive(Debug, Clone, Copy, PartialEq, Eq, Structural)]
pub struct Enemy {
    /// x position, in position units.
    pub x: i64,
    /// y position, in position units (grows downward).
    pub y: i64,
    /// Movement direction: positive is right, negative is left.
    pub direction: i64,
    /// Type of the enemy.
    pub enemy_type: EnemyType,
    /// Hits left; zero means destroyed.
    pub health: u32,
}

impl Enemy {
    /// The enemy after moving for `dt` milliseconds at base speed `speed`.
    pub open spec fn moved(self, speed: u32, dt: u32) -> Enemy {
        Enemy {
            x: saturate(
                self.x + heading(self.direction) * travel(
                    speed as int,
                    self.enemy_type.spec_speed_multiplier() as int,
                    dt as int,
                ),
            ),
            ..self
        }
    }

    /// The enemy after one hit: health drops by one, never below zero.
    pub open spec fn damaged(self) -> Enemy {
        Enemy { health: if self.health > 0 { (self.health - 1) as u32 } else { 0 }, ..self }
    }

    /// The enemy lies below the defender line.
    pub open spec fn breached(self) -> bool {
        self.y > DEFENDER_Y
    }

    /// A fresh enemy with the full health of its type.
    pub fn new(x: i64, y: i64, direction: i64, enemy_type: EnemyType) -> (r: Enemy)
        ensures
            r == (Enemy { x, y, direction, enemy_type, health: enemy_type.spec_max_health() }),
    {
        let health = enemy_type.max_health();
        Enemy { x, y, direction, enemy_type, health }
    }

    /// Moves the enemy along its direction for `dt` milliseconds, at
    /// `base_speed` pixels per second scaled by its type's multiplier.
    pub fn update(&mut self, base_speed: u32, dt: u32)
        ensures
            *final(self) == old(self).moved(base_speed, dt),
    {
        let percent = self.enemy_type.speed_multiplier();
        assert(0 <= base_speed as int * percent as int <= 0xffff_ffff * 150) by (nonlinear_arith)
            requires
                percent <= 150,
        ;
        let rate: i128 = base_speed as i128 * percent as i128;
        assert(0 <= rate as int * dt as int <= 0xffff_ffff * 150 * 0xffff_ffff) by (nonlinear_arith)
            requires
                0 <= rate <= 0xffff_ffff * 150,
        ;
        let step: i128 = rate * dt as i128 / 100;
        let target: i128 = if self.direction > 0 {
            self.x as i128 + step
        } else if self.direction < 0 {
            self.x as i128 - step
        } else {
            self.x as i128
        };
        self.x = saturate_i128(target);
    }

    /// Applies one hit. Returns whether the enemy's health is now zero.
    pub fn take_damage(&mut self) -> (destroyed: bool)
        ensures
            *final(self) == old(self).damaged(),
            destroyed == (final(self).health == 0),
    {
        if self.health > 0 {
            self.health = self.health - 1;
        }
        self.health == 0
    }

    /// Whether the enemy's health is zero.
    pub fn is_destroyed(&self) -> (r: bool)
        ensures
            r == (self.health == 0),
    {
        self.health == 0
    }

    /// Whether the enemy is below the defender line.
    pub fn has_breached_defender_line(&self) -> (r: bool)
        ensures
            r == self.breached(),
            r == (self.y > (SCREEN_HEIGHT - DEFENDER_LINE) * PIXEL),
    {
        self.y > DEFENDER_Y
    }
}

/// A hit on an enemy whose health is already zero changes nothing, and it
/// still counts as destroyed.
pub proof fn damage_when_destroyed_is_no_op(e: Enemy)
    requires
        e.health == 0,
    ensures
        e.damaged() == e,
        e.damaged().health == 0,
{
}

} // verus!
