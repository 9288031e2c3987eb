//! Entity geometry and the store's per-frame kinematics.

use shooter_core::geom::{clamp_coord, Entity, COORD_SCALE};
use shooter_core::store::EntityStore;

fn entity(x_px: i64, y_px: i64, size: u32, speed: u32) -> Entity {
    Entity {
        x: x_px * COORD_SCALE,
        y: y_px * COORD_SCALE,
        size,
        speed,
        collided: false,
    }
}

#[test]
fn boxes_at_same_center_overlap() {
    let a = entity(100, 100, 32, 50);
    let b = entity(100, 100, 32, 400);
    assert!(a.collide(&b));
    assert!(b.collide(&a));
}

#[test]
fn touching_edges_count_as_overlap() {
    // Centers 32 px apart, half-extents 16 + 16: the edges meet exactly.
    let a = entity(100, 100, 32, 50);
    let b = entity(132, 100, 32, 50);
    assert!(a.collide(&b));
    let c = entity(133, 100, 32, 50);
    assert!(!a.collide(&c));
}

#[test]
fn distant_boxes_do_not_overlap() {
    let a = entity(100, 100, 16, 50);
    let b = entity(400, 300, 64, 50);
    assert!(!a.collide(&b));
}

#[test]
fn clamping_pulls_into_range() {
    assert_eq!(clamp_coord(-5, 0, 800_000), 0);
    assert_eq!(clamp_coord(900_000, 0, 800_000), 800_000);
    assert_eq!(clamp_coord(400_000, 0, 800_000), 400_000);
}

#[test]
fn new_store_is_empty_with_centered_ship() {
    let s = EntityStore::new(800, 600);
    assert_eq!(s.obstacles.len(), 0);
    assert_eq!(s.projectiles.len(), 0);
    assert_eq!(s.ship.x, 400 * COORD_SCALE);
    assert_eq!(s.ship.y, 300 * COORD_SCALE);
    assert_eq!(s.ship.size, 16);
    assert_eq!(s.ship.speed, 200);
    assert!(!s.ship.collided);
}

#[test]
fn advance_moves_obstacles_down_and_projectiles_up() {
    let mut s = EntityStore::new(800, 600);
    s.add_obstacle(entity(100, 50, 32, 100));
    s.add_projectile(entity(200, 500, 32, 400));
    // 250 ms at 100 px/s is exactly 25 px down; at 400 px/s, 100 px up.
    s.advance(250);
    assert_eq!(s.obstacles[0].y, 75 * COORD_SCALE);
    assert_eq!(s.obstacles[0].x, 100 * COORD_SCALE);
    assert_eq!(s.projectiles[0].y, 400 * COORD_SCALE);
    assert_eq!(s.projectiles[0].x, 200 * COORD_SCALE);
}

#[test]
fn prune_removes_collided_entities() {
    let mut s = EntityStore::new(800, 600);
    s.add_obstacle(entity(100, 50, 32, 100));
    let mut hit = entity(200, 50, 32, 100);
    hit.collided = true;
    s.add_obstacle(hit);
    let mut spent = entity(300, 200, 32, 400);
    spent.collided = true;
    s.add_projectile(spent);
    s.prune();
    assert_eq!(s.obstacles.len(), 1);
    assert_eq!(s.obstacles[0].x, 100 * COORD_SCALE);
    assert!(!s.obstacles[0].collided);
    assert_eq!(s.projectiles.len(), 0);
}

#[test]
fn prune_removes_projectiles_past_the_top() {
    let mut s = EntityStore::new(800, 600);
    // A projectile of size 32 leaves once its center is at or above -16 px.
    s.add_projectile(entity(100, -15, 32, 400));
    s.add_projectile(entity(200, -16, 32, 400));
    s.prune();
    assert_eq!(s.projectiles.len(), 1);
    assert_eq!(s.projectiles[0].x, 100 * COORD_SCALE);
}

#[test]
fn spawned_obstacle_is_pruned_once_past_the_bottom() {
    // An obstacle of size 40 starting at y = -size on a 600-px-tall screen
    // survives until its center reaches 640 px, and is pruned there.
    let mut s = EntityStore::new(800, 600);
    s.add_obstacle(entity(400, -40, 40, 100));
    // Each advance of 100 ms at 100 px/s falls exactly 10 px.
    for _ in 0..67 {
        s.advance(100);
        s.prune();
    }
    assert_eq!(s.obstacles.len(), 1);
    assert_eq!(s.obstacles[0].y, 630 * COORD_SCALE);
    s.advance(100);
    assert_eq!(s.obstacles[0].y, 640 * COORD_SCALE);
    s.prune();
    assert_eq!(s.obstacles.len(), 0);
}

#[test]
fn reset_clears_entities_and_recenters_ship() {
    let mut s = EntityStore::new(800, 600);
    s.add_obstacle(entity(100, 50, 32, 100));
    s.add_projectile(entity(200, 500, 32, 400));
    s.ship.x = 12 * COORD_SCALE;
    s.ship.y = 34 * COORD_SCALE;
    s.reset();
    assert_eq!(s.obstacles.len(), 0);
    assert_eq!(s.projectiles.len(), 0);
    assert_eq!(s.ship.x, 400 * COORD_SCALE);
    assert_eq!(s.ship.y, 300 * COORD_SCALE);
}

#[test]
fn resetting_twice_equals_resetting_once() {
    let mut once = EntityStore::new(800, 600);
    once.add_obstacle(entity(100, 50, 32, 100));
    once.ship.x = 0;
    let mut twice = EntityStore::new(800, 600);
    twice.add_obstacle(entity(100, 50, 32, 100));
    twice.ship.x = 0;
    once.reset();
    twice.reset();
    twice.reset();
    assert_eq!(once.ship, twice.ship);
    assert_eq!(once.obstacles, twice.obstacles);
    assert_eq!(once.projectiles, twice.projectiles);
    assert_eq!(once.screen_w, twice.screen_w);
    assert_eq!(once.screen_h, twice.screen_h);
}

#[test]
fn ship_shift_and_clamp_stay_on_screen() {
    let mut s = EntityStore::new(800, 600);
    // Hold left for five full seconds: the raw shift leaves the screen, the
    // clamp pulls the ship back to the left edge.
    s.shift_ship(true, false, false, false, 5000);
    s.clamp_ship();
    assert_eq!(s.ship.x, 0);
    assert_eq!(s.ship.y, 300 * COORD_SCALE);
    // Opposing directions cancel.
    s.shift_ship(true, true, true, true, 40);
    s.clamp_ship();
    assert_eq!(s.ship.x, 0);
    assert_eq!(s.ship.y, 300 * COORD_SCALE);
    // A plain move: 40 ms at 200 px/s is 8 px.
    s.shift_ship(false, true, true, false, 40);
    s.clamp_ship();
    assert_eq!(s.ship.x, 8 * COORD_SCALE);
    assert_eq!(s.ship.y, 292 * COORD_SCALE);
}
