//! The spawner's trial: range discipline of every spawned obstacle, and
//! both outcomes of the Bernoulli trial actually occurring.

use shooter_core::geom::COORD_SCALE;
use shooter_core::spawn::{maybe_spawn, GameRng};

#[test]
fn spawned_obstacles_respect_the_generation_ranges() {
    macroquad::rand::srand(123_456_789);
    let mut rng = GameRng::new();
    let screen_w: u32 = 800;
    let mut spawns: u32 = 0;
    let mut skips: u32 = 0;
    for _ in 0..4_000 {
        match maybe_spawn(&mut rng, screen_w) {
            Some(o) => {
                spawns += 1;
                assert!(o.size >= 16 && o.size <= 64);
                assert!(o.speed >= 50 && o.speed <= 150);
                assert_eq!(o.y, -(o.size as i64 * COORD_SCALE));
                let half = o.size as i64 * 500;
                assert!(o.x >= half);
                assert!(o.x <= screen_w as i64 * COORD_SCALE - half);
                assert!(!o.collided);
            }
            None => {
                skips += 1;
            }
        }
    }
    // A five-in-a-hundred trial over four thousand frames sees both
    // outcomes; a generator stuck at either end of its range would not.
    assert!(spawns > 0);
    assert!(skips > 0);
    assert!(spawns < skips);
}

#[test]
fn seeded_spawning_is_reproducible() {
    let mut rng = GameRng::new();
    macroquad::rand::srand(42);
    let first: Vec<Option<(u32, u32, i64)>> = (0..200)
        .map(|_| maybe_spawn(&mut rng, 640).map(|o| (o.size, o.speed, o.x)))
        .collect();
    macroquad::rand::srand(42);
    let second: Vec<Option<(u32, u32, i64)>> = (0..200)
        .map(|_| maybe_spawn(&mut rng, 640).map(|o| (o.size, o.speed, o.x)))
        .collect();
    assert_eq!(first, second);
    assert!(first.iter().any(|s| s.is_some()));
}
