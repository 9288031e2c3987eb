//! The two collision passes and their scoring.

use shooter_core::collision::{destructive_pass, fatal_pass, Destroyed};
use shooter_core::geom::{Entity, COORD_SCALE};
use shooter_core::store::EntityStore;

fn entity(x_px: i64, y_px: i64, size: u32, speed: u32) -> Entity {
    Entity {
        x: x_px * COORD_SCALE,
        y: y_px * COORD_SCALE,
        size,
        speed,
        collided: false,
    }
}

#[test]
fn overlapping_pair_scores_and_is_pruned() {
    // Obstacle and projectile both at (100, 100) with size 32: the pass
    // marks both, the score rises by the obstacle's size, and the next
    // prune removes both.
    let mut obstacles = vec![entity(100, 100, 32, 100)];
    let mut projectiles = vec![entity(100, 100, 32, 400)];
    let mut score: u32 = 0;
    let mut high: u32 = 0;
    let destroyed = destructive_pass(&mut obstacles, &mut projectiles, &mut score, &mut high);
    assert!(obstacles[0].collided);
    assert!(projectiles[0].collided);
    assert_eq!(score, 32);
    assert_eq!(high, 32);
    assert_eq!(
        destroyed,
        vec![Destroyed {
            x: 100 * COORD_SCALE,
            y: 100 * COORD_SCALE,
            size: 32
        }]
    );
    let mut s = EntityStore::new(800, 600);
    s.obstacles = obstacles;
    s.projectiles = projectiles;
    s.prune();
    assert_eq!(s.obstacles.len(), 0);
    assert_eq!(s.projectiles.len(), 0);
}

#[test]
fn disjoint_pair_is_untouched() {
    let mut obstacles = vec![entity(100, 100, 16, 100)];
    let mut projectiles = vec![entity(400, 500, 32, 400)];
    let mut score: u32 = 10;
    let mut high: u32 = 25;
    let destroyed = destructive_pass(&mut obstacles, &mut projectiles, &mut score, &mut high);
    assert!(!obstacles[0].collided);
    assert!(!projectiles[0].collided);
    assert_eq!(score, 10);
    assert_eq!(high, 25);
    assert!(destroyed.is_empty());
}

#[test]
fn one_projectile_can_score_two_overlapping_obstacles() {
    // Both obstacles overlap the single projectile; the pass tests every
    // pair without consulting marks set earlier in the same pass.
    let mut obstacles = vec![entity(90, 100, 32, 100), entity(110, 100, 32, 100)];
    let mut projectiles = vec![entity(100, 100, 32, 400)];
    let mut score: u32 = 0;
    let mut high: u32 = 0;
    let destroyed = destructive_pass(&mut obstacles, &mut projectiles, &mut score, &mut high);
    assert!(obstacles[0].collided);
    assert!(obstacles[1].collided);
    assert!(projectiles[0].collided);
    assert_eq!(score, 64);
    assert_eq!(high, 64);
    assert_eq!(destroyed.len(), 2);
}

#[test]
fn score_never_passes_the_high_score() {
    let mut obstacles = vec![entity(100, 100, 40, 100)];
    let mut projectiles = vec![entity(100, 100, 32, 400)];
    let mut score: u32 = 10;
    let mut high: u32 = 1000;
    destructive_pass(&mut obstacles, &mut projectiles, &mut score, &mut high);
    assert_eq!(score, 50);
    assert_eq!(high, 1000);
    assert!(score <= high);
}

#[test]
fn score_saturates_at_the_top_instead_of_wrapping() {
    let mut obstacles = vec![entity(100, 100, 40, 100)];
    let mut projectiles = vec![entity(100, 100, 32, 400)];
    let mut score: u32 = u32::MAX - 10;
    let mut high: u32 = u32::MAX - 10;
    destructive_pass(&mut obstacles, &mut projectiles, &mut score, &mut high);
    assert_eq!(score, u32::MAX);
    assert_eq!(high, u32::MAX);
}

#[test]
fn fatal_pass_detects_overlap_with_the_ship() {
    let ship = entity(160, 300, 16, 200);
    let clear = vec![entity(600, 100, 32, 100)];
    assert!(!fatal_pass(&ship, &clear));
    let deadly = vec![entity(600, 100, 32, 100), entity(170, 310, 32, 100)];
    assert!(fatal_pass(&ship, &deadly));
}
