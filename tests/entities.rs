use bumblebees::constants::{DEFENDER_LINE, PIXEL, SCREEN_HEIGHT};
use bumblebees::{Bullet, Enemy, EnemyType};

#[test]
fn test_bullet_out_of_bounds() {
    let bullet = Bullet::new(100 * PIXEL, -10 * PIXEL);
    assert!(bullet.is_out_of_bounds());
}

#[test]
fn test_bullet_in_bounds() {
    let bullet = Bullet::new(100 * PIXEL, 100 * PIXEL);
    assert!(!bullet.is_out_of_bounds());
}

#[test]
fn test_defender_line_breach() {
    let enemy = Enemy::new(
        100 * PIXEL,
        (SCREEN_HEIGHT - DEFENDER_LINE + 10) * PIXEL,
        1,
        EnemyType::Standard,
    );
    assert!(enemy.has_breached_defender_line());
}

#[test]
fn test_no_defender_line_breach() {
    let enemy = Enemy::new(
        100 * PIXEL,
        (SCREEN_HEIGHT - DEFENDER_LINE - 10) * PIXEL,
        1,
        EnemyType::Standard,
    );
    assert!(!enemy.has_breached_defender_line());
}

#[test]
fn test_enemy_types() {
    let standard = Enemy::new(100 * PIXEL, 100 * PIXEL, 1, EnemyType::Standard);
    let fast = Enemy::new(100 * PIXEL, 100 * PIXEL, 1, EnemyType::Fast);
    let tank = Enemy::new(100 * PIXEL, 100 * PIXEL, 1, EnemyType::Tank);
    let swooper = Enemy::new(100 * PIXEL, 100 * PIXEL, 1, EnemyType::Swooper);

    assert_eq!(standard.health, 1);
    assert_eq!(fast.health, 1);
    assert_eq!(tank.health, 3);
    assert_eq!(swooper.health, 1);
}

#[test]
fn test_take_damage() {
    let mut enemy = Enemy::new(100 * PIXEL, 100 * PIXEL, 1, EnemyType::Tank);
    assert_eq!(enemy.health, 3);
    assert!(!enemy.is_destroyed());

    assert!(!enemy.take_damage());
    assert_eq!(enemy.health, 2);

    assert!(!enemy.take_damage());
    assert_eq!(enemy.health, 1);

    assert!(enemy.take_damage());
    assert_eq!(enemy.health, 0);
    assert!(enemy.is_destroyed());
}

#[test]
fn test_speed_multipliers() {
    assert_eq!(EnemyType::Standard.speed_multiplier(), 100);
    assert_eq!(EnemyType::Fast.speed_multiplier(), 150);
    assert_eq!(EnemyType::Tank.speed_multiplier(), 70);
    assert_eq!(EnemyType::Swooper.speed_multiplier(), 100);
}

#[test]
fn test_points() {
    assert_eq!(EnemyType::Standard.points(), 10);
    assert_eq!(EnemyType::Fast.points(), 20);
    assert_eq!(EnemyType::Tank.points(), 50);
    assert_eq!(EnemyType::Swooper.points(), 30);
}

#[test]
fn type_table_is_total() {
    assert_eq!(
        (EnemyType::Tank.max_health(), EnemyType::Tank.speed_multiplier(), EnemyType::Tank.points()),
        (3, 70, 50)
    );
    assert_eq!(
        (
            EnemyType::Standard.max_health(),
            EnemyType::Standard.speed_multiplier(),
            EnemyType::Standard.points()
        ),
        (1, 100, 10)
    );
    assert_eq!(EnemyType::Fast.max_health(), 1);
    assert_eq!(EnemyType::Swooper.max_health(), 1);
}

#[test]
fn tank_fourth_hit_is_no_op() {
    let mut tank = Enemy::new(0, 0, 1, EnemyType::Tank);
    let results = [tank.take_damage(), tank.take_damage(), tank.take_damage()];
    assert_eq!(results, [false, false, true]);
    assert!(tank.take_damage());
    assert_eq!(tank.health, 0);
}

#[test]
fn breach_just_over_and_under_the_line() {
    let line = (SCREEN_HEIGHT - DEFENDER_LINE) * PIXEL;
    assert!(Enemy::new(0, line + 1, 1, EnemyType::Standard).has_breached_defender_line());
    assert!(!Enemy::new(0, line, 1, EnemyType::Standard).has_breached_defender_line());
    assert!(!Enemy::new(0, line - 1, 1, EnemyType::Standard).has_breached_defender_line());
}

#[test]
fn enemy_update_scales_by_type() {
    let mut fast = Enemy::new(100 * PIXEL, 0, 1, EnemyType::Fast);
    fast.update(50, 1000);
    assert_eq!(fast.x, 175 * PIXEL);

    let mut tank = Enemy::new(100 * PIXEL, 0, -1, EnemyType::Tank);
    tank.update(50, 1000);
    assert_eq!(tank.x, 65 * PIXEL);

    let mut still = Enemy::new(100 * PIXEL, 0, 1, EnemyType::Standard);
    still.update(50, 0);
    assert_eq!(still.x, 100 * PIXEL);
}

#[test]
fn bullet_update_rises() {
    let mut b = Bullet::new(10, 300 * PIXEL);
    b.update(100);
    assert_eq!(b.y, 250 * PIXEL);
    assert_eq!(b.x, 10);
    b.update(0);
    assert_eq!(b.y, 250 * PIXEL);
}
