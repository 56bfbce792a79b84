use invaders::bullet::Bullet;
use invaders::geometry::Rect;
use invaders::scene::{KeyDirection, Scene};

#[test]
fn new_scene_layout() {
    let scene = Scene::new();
    assert_eq!((scene.width(), scene.height()), (400, 400));
    assert_eq!(scene.ship().x, 200_000);
    assert_eq!(scene.ship().direction, 0);
    assert_eq!(scene.bullets().len(), 0);
    assert_eq!(scene.enemies().len(), 7);
    assert_eq!(scene.last_updated(), 0);
    assert!(scene.state_changed);
}

#[test]
fn arrow_keys_set_direction() {
    let mut scene = Scene::new();
    scene.process_key_code("ArrowLeft", KeyDirection::Down, 10);
    assert_eq!(scene.ship().direction, -1);
    scene.process_key_code("ArrowRight", KeyDirection::Down, 20);
    assert_eq!(scene.ship().direction, 1);
    scene.process_key_code("ArrowLeft", KeyDirection::Up, 30);
    assert_eq!(scene.ship().direction, 0);
    scene.process_key_code("ArrowLeft", KeyDirection::Down, 40);
    scene.process_key_code("ArrowRight", KeyDirection::Up, 50);
    assert_eq!(scene.ship().direction, 0);
}

#[test]
fn other_keys_ignored() {
    let mut scene = Scene::new();
    scene.process_key_code("KeyA", KeyDirection::Down, 1000);
    scene.process_key_code("Spade", KeyDirection::Down, 1000);
    scene.process_key_code("Space", KeyDirection::Up, 1000);
    scene.process_key_code("arrowleft", KeyDirection::Down, 1000);
    scene.process_key_code("", KeyDirection::Down, 1000);
    assert_eq!(scene.ship().direction, 0);
    assert_eq!(scene.bullets().len(), 0);
}

#[test]
fn fire_twice_within_cooldown() {
    let mut scene = Scene::new();
    scene.process_key_code("Space", KeyDirection::Down, 1000);
    scene.process_key_code("Space", KeyDirection::Down, 1299);
    assert_eq!(scene.bullets().len(), 1);
}

#[test]
fn fire_twice_after_cooldown() {
    let mut scene = Scene::new();
    scene.process_key_code("Space", KeyDirection::Down, 1000);
    scene.process_key_code("Space", KeyDirection::Down, 1301);
    assert_eq!(scene.bullets().len(), 2);
}

#[test]
fn fire_refused_right_after_start() {
    let mut scene = Scene::new();
    scene.process_key_code("Space", KeyDirection::Down, 299);
    assert_eq!(scene.bullets().len(), 0);
    scene.process_key_code("Space", KeyDirection::Down, 300);
    assert_eq!(scene.bullets().len(), 1);
    let b: Bullet = scene.bullets()[0];
    assert_eq!((b.x, b.y), (200_000, 360_000));
}

#[test]
fn update_moves_and_clamps_craft() {
    let mut scene = Scene::new();
    scene.update_state(1000);
    scene.draw();
    scene.process_key_code("ArrowRight", KeyDirection::Down, 1000);
    scene.update_state(2000);
    assert_eq!(scene.ship().x, 380_000);
    assert_eq!(scene.last_updated(), 2000);
    assert!(scene.state_changed);
}

#[test]
fn update_with_nothing_moving_keeps_scene_unchanged() {
    let mut scene = Scene::new();
    scene.draw();
    scene.update_state(500);
    assert!(!scene.state_changed);
    assert_eq!(scene.ship().x, 200_000);
    assert_eq!(scene.enemies().len(), 7);
}

#[test]
fn update_moves_projectile() {
    let mut scene = Scene::new();
    scene.update_state(1000);
    scene.process_key_code("Space", KeyDirection::Down, 1000);
    scene.update_state(1100);
    assert_eq!(scene.bullets().len(), 1);
    assert_eq!(scene.bullets()[0].y, 330_000);
}

#[test]
fn projectile_destroys_target() {
    let mut scene = Scene::new();
    scene.update_state(1000);
    scene.process_key_code("Space", KeyDirection::Down, 1000);
    scene.update_state(1700);
    assert_eq!(scene.bullets().len(), 0);
    assert_eq!(scene.enemies().len(), 6);
    assert!(scene.enemies().iter().all(|e| !(e.x == 200_000 && e.y == 140_000)));
}

#[test]
fn projectile_leaves_the_playfield() {
    let mut scene = Scene::new();
    scene.update_state(1000);
    scene.process_key_code("ArrowLeft", KeyDirection::Down, 1000);
    scene.update_state(1250);
    assert_eq!(scene.ship().x, 150_000);
    scene.process_key_code("ArrowLeft", KeyDirection::Up, 1250);
    scene.process_key_code("Space", KeyDirection::Down, 1250);
    scene.update_state(1300);
    assert_eq!(scene.bullets().len(), 1);
    scene.update_state(3000);
    assert_eq!(scene.bullets().len(), 0);
    assert_eq!(scene.enemies().len(), 7);
}

#[test]
fn draw_once_until_changed() {
    let mut scene = Scene::new();
    let frame = scene.draw().expect("a new scene has a frame to draw");
    assert_eq!(frame.clear, Rect { x: 0, y: 0, width: 400_000, height: 400_000 });
    assert_eq!(frame.fills.len(), 8);
    assert_eq!(frame.fills[0], Rect { x: 180_000, y: 360_000, width: 40_000, height: 40_000 });
    assert_eq!(frame.fills[1], Rect { x: 130_000, y: 50_000, width: 20_000, height: 20_000 });
    assert!(!scene.state_changed);
    assert!(scene.draw().is_none());
}

#[test]
fn draw_orders_craft_projectiles_targets() {
    let mut scene = Scene::new();
    scene.update_state(1000);
    scene.process_key_code("Space", KeyDirection::Down, 1000);
    scene.update_state(1100);
    let frame = scene.draw().expect("a projectile moved");
    assert_eq!(frame.fills.len(), 9);
    assert_eq!(frame.fills[1], Rect { x: 198_000, y: 324_000, width: 4_000, height: 12_000 });
    assert_eq!(frame.fills[8], Rect { x: 230_000, y: 130_000, width: 20_000, height: 20_000 });
    assert!(scene.draw().is_none());
}
