use bumblebees::constants::{
    DEFENDER_LINE, INITIAL_ENEMY_SPEED, PIXEL, PLAYER_Y, RIGHT_EDGE, SCREEN_HEIGHT,
};
use bumblebees::player::{PLAYER_MIN_X, PLAYER_START_X};
use bumblebees::{generate_wave, Bullet, Enemy, EnemyType, GameState, Input, Simulation};

fn idle() -> Input {
    Input { left: false, right: false, fire: false, reset: false }
}

#[test]
fn new_session_is_wave_one() {
    let sim = Simulation::new();
    assert_eq!(sim.wave, 1);
    assert_eq!(sim.score, 0);
    assert_eq!(sim.state, GameState::Playing);
    assert_eq!(sim.enemies, generate_wave(1));
    assert!(sim.bullets.is_empty());
    assert_eq!(sim.player.x, PLAYER_START_X);
    assert_eq!(sim.enemy_speed, INITIAL_ENEMY_SPEED);
}

#[test]
fn breach_ends_game_and_reset_restores_start() {
    let mut sim = Simulation::new();
    sim.score = 120;
    sim.enemies = vec![Enemy::new(
        300 * PIXEL,
        (SCREEN_HEIGHT - DEFENDER_LINE) * PIXEL + 1,
        1,
        EnemyType::Standard,
    )];
    let report = sim.tick(idle(), 16);
    assert_eq!(sim.state, GameState::GameOver);
    assert_eq!(report.game_over, Some(120));

    let frozen_x = sim.enemies[0].x;
    let report = sim.tick(Input { left: true, right: false, fire: true, reset: false }, 500);
    assert!(!report.shot_fired);
    assert_eq!(sim.enemies[0].x, frozen_x);
    assert!(sim.bullets.is_empty());
    assert!(!sim.fire());

    let report = sim.tick(Input { left: false, right: false, fire: false, reset: true }, 16);
    assert_eq!(report.game_over, None);
    assert_eq!(sim.wave, 1);
    assert_eq!(sim.score, 0);
    assert_eq!(sim.enemies, generate_wave(1));
    assert!(sim.bullets.is_empty());
    assert_eq!(sim.state, GameState::Playing);
    assert_eq!(sim.enemy_speed, INITIAL_ENEMY_SPEED);
}

#[test]
fn zero_length_tick_changes_nothing() {
    let mut sim = Simulation::new();
    sim.bullets = vec![Bullet::new(700 * PIXEL, 50 * PIXEL)];
    let enemies = sim.enemies.clone();
    let bullets = sim.bullets.clone();
    let player_x = sim.player.x;
    let report = sim.tick(Input { left: true, right: false, fire: false, reset: false }, 0);
    assert_eq!(sim.enemies, enemies);
    assert_eq!(sim.bullets, bullets);
    assert_eq!(sim.player.x, player_x);
    assert!(report.destroyed.is_empty());
    assert_eq!(report.game_over, None);
    assert_eq!(sim.state, GameState::Playing);
    assert_eq!(sim.direction, 1);
}

#[test]
fn clearing_a_wave_starts_the_next() {
    let mut sim = Simulation::new();
    sim.enemies = vec![Enemy::new(100 * PIXEL, 200 * PIXEL, 1, EnemyType::Fast)];
    sim.bullets = vec![Bullet::new(100 * PIXEL, 205 * PIXEL)];
    let report = sim.tick(idle(), 0);
    assert_eq!(report.destroyed, vec![(100 * PIXEL, 200 * PIXEL, 20)]);
    assert_eq!(sim.score, 20);
    assert_eq!(sim.wave, 2);
    assert_eq!(sim.enemies, generate_wave(2));
    assert_eq!(sim.enemy_speed, INITIAL_ENEMY_SPEED + 10);
    assert_eq!(sim.state, GameState::Playing);
}

#[test]
fn formation_reverses_and_drops_at_the_edge() {
    let mut sim = Simulation::new();
    sim.enemies = vec![
        Enemy::new(RIGHT_EDGE - PIXEL, 100 * PIXEL, 1, EnemyType::Standard),
        Enemy::new(300 * PIXEL, 150 * PIXEL, 1, EnemyType::Standard),
    ];
    sim.tick(idle(), 100);
    assert_eq!(sim.direction, -1);
    assert_eq!(sim.enemies[0].x, RIGHT_EDGE + 4 * PIXEL);
    assert_eq!(sim.enemies[0].y, 120 * PIXEL);
    assert_eq!(sim.enemies[1].x, 305 * PIXEL);
    assert_eq!(sim.enemies[1].y, 170 * PIXEL);
    assert!(sim.enemies.iter().all(|e| e.direction == -1));
}

#[test]
fn firing_spawns_a_rising_bullet() {
    let mut sim = Simulation::new();
    let report = sim.tick(Input { left: false, right: false, fire: true, reset: false }, 100);
    assert!(report.shot_fired);
    assert_eq!(sim.bullets, vec![Bullet::new(PLAYER_START_X, PLAYER_Y - 50 * PIXEL)]);
}

#[test]
fn bullets_leaving_the_top_are_culled() {
    let mut sim = Simulation::new();
    sim.bullets = vec![Bullet::new(700 * PIXEL, PIXEL), Bullet::new(700 * PIXEL, 400 * PIXEL)];
    sim.tick(idle(), 100);
    assert_eq!(sim.bullets, vec![Bullet::new(700 * PIXEL, 350 * PIXEL)]);
}

#[test]
fn player_is_clamped_and_opposing_keys_cancel() {
    let mut sim = Simulation::new();
    sim.tick(Input { left: true, right: true, fire: false, reset: false }, 1000);
    assert_eq!(sim.player.x, PLAYER_START_X);
    sim.tick(Input { left: true, right: false, fire: false, reset: false }, 100);
    assert_eq!(sim.player.x, PLAYER_START_X - 30 * PIXEL);
    sim.tick(Input { left: true, right: false, fire: false, reset: false }, 60_000);
    assert_eq!(sim.player.x, PLAYER_MIN_X);
}

#[test]
fn huge_frame_does_not_crash() {
    let mut sim = Simulation::new();
    let report = sim.tick(Input { left: false, right: true, fire: true, reset: false }, u32::MAX);
    assert!(report.shot_fired);
    assert!(sim.bullets.is_empty());
}
