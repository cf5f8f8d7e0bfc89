//! Generation of each wave's enemy grid.
use vstd::prelude::*;
use crate::constants::{GRID_COLUMN_SPACING, GRID_LEFT, GRID_ROW_SPACING, GRID_TOP, WAVE_COLUMNS};
use crate::enemy::{Enemy, EnemyType};

verus! {

/// Type of the enemies of a grid row, counted from the top: the back rows
/// are the tougher and more valuable ones.
pub open spec fn row_type(row: int) -> EnemyType {
    if row == 0 {
        EnemyType::Tank
    } else if row == 1 {
        EnemyType::Swooper
    } else if row == 2 {
        EnemyType::Fast
    } else {
        EnemyType::Standard
    }
}

/// Rows of the grid of the given wave.
pub open spec fn wave_rows(wave: u32) -> int {
    2 + wave
}

/// The enemy at column `col`, row `row` of a grid.
pub open spec fn grid_enemy(col: int, row: int) -> Enemy {
    Enemy {
        x: (GRID_LEFT + col * GRID_COLUMN_SPACING) as i64,
        y: (GRID_TOP + row * GRID_ROW_SPACING) as i64,
        direction: 1,
        enemy_type: row_type(row),
        health: row_type(row).spec_max_health(),
    }
}

/// The enemies of a wave, column by column, each column from the top down.
pub open spec fn wave_layout(wave: u32) -> Seq<Enemy> {
    let rows = wave_rows(wave);
    Seq::new((WAVE_COLUMNS * rows) as nat, |k: int| grid_enemy(k / rows, k % rows))
}

fn type_for_row(row: u64) -> (r: EnemyType)
    ensures
        r == row_type(row as int),
{
    if row == 0 {
        EnemyType::Tank
    } else if row == 1 {
        EnemyType::Swooper
    } else if row == 2 {
        EnemyType::Fast
    } else {
        EnemyType::Standard
    }
}

/// The enemy grid of wave `wave`: `2 + wave` rows of ten columns, all
/// moving right at full health.
pub fn generate_wave(wave: u32) -> (r: Vec<Enemy>)
    ensures
        r@ == wave_layout(wave),
        r@.len() == WAVE_COLUMNS * (2 + wave),
{
    let rows: u64 = 2 + wave as u64;
    let total: u64 = WAVE_COLUMNS as u64 * rows;
    let mut enemies: Vec<Enemy> = Vec::new();
    let mut k: u64 = 0;
    while k < total
        invariant
            k <= total,
            rows == wave_rows(wave),
            total == WAVE_COLUMNS * rows,
            enemies@ == wave_layout(wave).take(k as int),
        decreases total - k,
    {
        let col: u64 = k / rows;
        let row: u64 = k % rows;
        assert(col < 10) by (nonlinear_arith)
            requires
                k < 10 * rows,
                rows > 0,
                col == k / rows,
        ;
        let kind = type_for_row(row);
        let x: i64 = GRID_LEFT + col as i64 * GRID_COLUMN_SPACING;
        let y: i64 = GRID_TOP + row as i64 * GRID_ROW_SPACING;
        let e = Enemy::new(x, y, 1, kind);
        enemies.push(e);
        assert(enemies@ =~= wave_layout(wave).take(k + 1));
        k = k + 1;
    }
    assert(enemies@ =~= wave_layout(wave));
    enemies
}

/// Wave generation depends on the wave number alone: two grids generated
/// for the same wave hold the same enemies at the same positions.
pub proof fn wave_generation_is_deterministic(wave: u32, first: Seq<Enemy>, second: Seq<Enemy>)
    requires
        first == wave_layout(wave),
        second == wave_layout(wave),
    ensures
        first == second,
        forall|k: int| 0 <= k < first.len() ==> first[k].x == second[k].x && first[k].y == second[k].y,
{
}

} // verus!
