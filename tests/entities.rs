use invaders::bullet::{Bullet, CollisionKind};
use invaders::enemy::{get_initial_enemies, Enemy};
use invaders::geometry::Rect;
use invaders::ship::Ship;

#[test]
fn craft_clamped_at_right_edge() {
    let mut ship = Ship::new(200_000, 400_000);
    ship.direction = 1;
    ship.change_position(1000);
    assert_eq!(ship.x, 380_000);
}

#[test]
fn craft_clamped_at_left_edge() {
    let mut ship = Ship::new(30_000, 400_000);
    ship.direction = -1;
    ship.change_position(100);
    assert_eq!(ship.x, 20_000);
}

#[test]
fn craft_moves_inside_playfield() {
    let mut ship = Ship::new(200_000, 400_000);
    ship.direction = -1;
    ship.change_position(250);
    assert_eq!(ship.x, 150_000);
    assert_eq!(ship.y, 380_000);
}

#[test]
fn craft_standing_still_keeps_position() {
    let mut ship = Ship::new(123_456, 400_000);
    ship.change_position(5000);
    assert_eq!(ship.x, 123_456);
}

#[test]
fn craft_stays_in_bounds_over_many_steps() {
    let mut ship = Ship::new(200_000, 400_000);
    for (direction, delta) in [(1i8, 0i64), (1, 17), (-1, 3000), (1, 999), (0, 50), (1, 1_000_000)] {
        ship.direction = direction;
        ship.change_position(delta);
        assert!(ship.x >= 20_000 && ship.x <= 380_000);
    }
}

#[test]
fn craft_fires_from_its_nose() {
    let mut ship = Ship::new(200_000, 400_000);
    let b = ship.fire_bullet();
    assert_eq!((b.x, b.y), (200_000, 360_000));
    assert_eq!((b.width, b.height, b.direction, b.speed), (4_000, 12_000, -1, 300));
    assert_eq!(ship.x, 200_000);
}

#[test]
fn craft_rectangle() {
    let ship = Ship::new(200_000, 400_000);
    assert_eq!(ship.draw(), Rect { x: 180_000, y: 360_000, width: 40_000, height: 40_000 });
}

#[test]
fn projectile_travels_up() {
    let mut b = Bullet::new(200_000, 360_000);
    b.change_position(100);
    assert_eq!(b.y, 330_000);
    assert_eq!(b.x, 200_000);
    let mut enemies: Vec<Enemy> = Vec::new();
    assert_eq!(b.check_collision(&mut enemies), CollisionKind::NotYet);
    b.change_position(1140);
    assert_eq!(b.y, -12_000);
    assert_eq!(b.check_collision(&mut enemies), CollisionKind::NotYet);
    b.change_position(1);
    assert_eq!(b.y, -12_300);
    assert_eq!(b.check_collision(&mut enemies), CollisionKind::EndOfMap);
}

#[test]
fn projectile_past_top_leaves_even_over_a_target() {
    let b = Bullet::new(100_000, -13_000);
    let mut enemies = vec![Enemy::new(100_000, -13_000)];
    assert_eq!(b.check_collision(&mut enemies), CollisionKind::EndOfMap);
    assert!(enemies[0].is_alive);
}

#[test]
fn projectile_at_target_center_hits_once() {
    let b = Bullet::new(200_000, 140_000);
    let mut enemies = vec![Enemy::new(200_000, 140_000)];
    assert_eq!(b.check_collision(&mut enemies), CollisionKind::Hit);
    assert!(!enemies[0].is_alive);
    assert_eq!(b.check_collision(&mut enemies), CollisionKind::NotYet);
    enemies.retain(|e| e.is_alive);
    assert_eq!(b.check_collision(&mut enemies), CollisionKind::NotYet);
}

#[test]
fn projectile_hits_only_first_overlapping_target() {
    let b = Bullet::new(100_000, 100_000);
    let mut enemies = vec![
        Enemy::new(300_000, 100_000),
        Enemy::new(105_000, 100_000),
        Enemy::new(100_000, 105_000),
    ];
    assert_eq!(b.check_collision(&mut enemies), CollisionKind::Hit);
    assert!(enemies[0].is_alive);
    assert!(!enemies[1].is_alive);
    assert!(enemies[2].is_alive);
}

#[test]
fn overlap_is_strict() {
    // Centers 12000 apart across: half extents sum to 2000 + 10000.
    let b = Bullet::new(112_000, 100_000);
    let mut enemies = vec![Enemy::new(100_000, 100_000)];
    assert_eq!(b.check_collision(&mut enemies), CollisionKind::NotYet);
    let b = Bullet::new(111_999, 100_000);
    assert_eq!(b.check_collision(&mut enemies), CollisionKind::Hit);
    // Centers 16000 apart vertically: half extents sum to 6000 + 10000.
    let mut enemies = vec![Enemy::new(100_000, 100_000)];
    let b = Bullet::new(100_000, 116_000);
    assert_eq!(b.check_collision(&mut enemies), CollisionKind::NotYet);
    let b = Bullet::new(100_000, 84_001);
    assert_eq!(b.check_collision(&mut enemies), CollisionKind::Hit);
}

#[test]
fn projectile_and_target_rectangles() {
    let b = Bullet::new(200_000, 360_000);
    assert_eq!(b.draw(), Rect { x: 198_000, y: 354_000, width: 4_000, height: 12_000 });
    let e = Enemy::new(140_000, 60_000);
    assert_eq!(e.draw(), Rect { x: 130_000, y: 50_000, width: 20_000, height: 20_000 });
}

#[test]
fn initial_targets_in_two_rows() {
    let enemies = get_initial_enemies();
    let centers: Vec<(i64, i64)> = enemies.iter().map(|e| (e.x, e.y)).collect();
    assert_eq!(
        centers,
        vec![
            (140_000, 60_000), (180_000, 60_000), (220_000, 60_000), (260_000, 60_000),
            (160_000, 140_000), (200_000, 140_000), (240_000, 140_000),
        ]
    );
    assert!(enemies.iter().all(|e| e.is_alive && e.width == 20_000 && e.height == 20_000));
}
