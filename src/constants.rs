//! Tunable constants of the play field.
//!
//! Lengths are in milli-pixels unless their name says otherwise.
use vstd::prelude::*;

verus! {

/// Number of position units in one pixel.
pub const PIXEL: i64 = 1000;

/// Width of the play field, in pixels.
pub const SCREEN_WIDTH: i64 = 800;

/// Height of the play field, in pixels.
pub const SCREEN_HEIGHT: i64 = 600;

/// Distance of the defender line from the bottom of the field, in pixels.
pub const DEFENDER_LINE: i64 = 100;

/// An enemy whose y lies strictly below this line (in position units) has breached it.
pub const DEFENDER_Y: i64 = (SCREEN_HEIGHT - DEFENDER_LINE) * PIXEL;

/// Speed of a bullet, in pixels per second (upward).
pub const BULLET_SPEED: i64 = 500;

/// Speed of the player, in pixels per second.
pub const PLAYER_SPEED: i64 = 300;

/// Half of the player's width, in position units.
pub const HALF_PLAYER_WIDTH: i64 = 25 * PIXEL;

/// Height at which the player stands and bullets are spawned, in position units.
pub const PLAYER_Y: i64 = (SCREEN_HEIGHT - 50) * PIXEL;

/// Radius of the bullet/enemy hit circle, in position units.
pub const COLLISION_RADIUS: i64 = 20 * PIXEL;

/// Base enemy speed at wave one, in pixels per second.
pub const INITIAL_ENEMY_SPEED: u32 = 50;

/// Added to the base enemy speed each time a wave is cleared, in pixels per second.
pub const ENEMY_SPEED_INCREMENT: u32 = 10;

/// Vertical drop of the formation when it reverses, in position units.
pub const ENEMY_DROP: i64 = 20 * PIXEL;

/// Left edge of the region the formation may occupy, in position units.
pub const LEFT_MARGIN: i64 = 20 * PIXEL;

/// Right edge of the region the formation may occupy, in position units.
pub const RIGHT_EDGE: i64 = (SCREEN_WIDTH - 20) * PIXEL;

/// Columns of every wave's grid.
pub const WAVE_COLUMNS: u32 = 10;

/// x of the first column, in position units.
pub const GRID_LEFT: i64 = 50 * PIXEL;

/// Horizontal distance between columns, in position units.
pub const GRID_COLUMN_SPACING: i64 = 60 * PIXEL;

/// y of the first row, in position units.
pub const GRID_TOP: i64 = 100 * PIXEL;

/// Vertical distance between rows, in position units.
pub const GRID_ROW_SPACING: i64 = 50 * PIXEL;

} // verus!
