use bumblebees::constants::PIXEL;
use bumblebees::{generate_wave, EnemyType};

#[test]
fn test_generate_enemies_wave_1() {
    let enemies = generate_wave(1);
    assert_eq!(enemies.len(), 30);
}

#[test]
fn test_generate_enemies_wave_2() {
    let enemies = generate_wave(2);
    assert_eq!(enemies.len(), 40);
}

#[test]
fn test_generate_enemies_positions() {
    let enemies = generate_wave(1);

    assert_eq!(enemies[0].x, 50 * PIXEL);
    assert_eq!(enemies[0].y, 100 * PIXEL);

    assert_eq!(enemies[1].x, 50 * PIXEL);
    assert_eq!(enemies[1].y, 150 * PIXEL);

    assert_eq!(enemies[3].x, 110 * PIXEL);
    assert_eq!(enemies[3].y, 100 * PIXEL);
}

#[test]
fn wave_generation_is_repeatable() {
    for n in [1u32, 2, 5] {
        assert_eq!(generate_wave(n), generate_wave(n));
    }
}

#[test]
fn wave_grid_corners_and_types() {
    let enemies = generate_wave(2);
    let last = enemies[39];
    assert_eq!((last.x, last.y), (590 * PIXEL, 250 * PIXEL));
    assert_eq!(enemies[0].enemy_type, EnemyType::Tank);
    assert_eq!(enemies[0].health, 3);
    assert_eq!(enemies[1].enemy_type, EnemyType::Swooper);
    assert_eq!(enemies[2].enemy_type, EnemyType::Fast);
    assert_eq!(enemies[3].enemy_type, EnemyType::Standard);
    assert!(enemies.iter().all(|e| e.direction == 1));
}
