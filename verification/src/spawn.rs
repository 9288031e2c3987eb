//! The obstacle spawner: at most one new obstacle per frame, by chance.
//!
//! Each frame in play makes one Bernoulli trial; on success an obstacle is
//! drawn with a random size, speed and horizontal position and appears just
//! above the top of the screen. The draws come from the process-wide
//! pseudo-random generator behind [`GameRng`]; the generator is expected to
//! be seeded once at process start from a time-derived seed (by the code
//! that owns startup), so runs do not repeat one fixed sequence, while a
//! test may seed it deterministically instead.

use vstd::prelude::*;
use crate::geom::{Entity, COORD_SCALE, HALF_SCALE};
use crate::store::{MAX_SCREEN_DIM, MIN_SCREEN_DIM};

verus! {

/// Upper argument of the per-frame spawn roll.
pub const SPAWN_ROLL_BOUND: u32 = 99;

/// A roll at or above this spawns an obstacle: five outcomes in a hundred.
pub const SPAWN_THRESHOLD: u32 = 95;

/// Smallest obstacle edge length, in pixels.
pub const OBSTACLE_MIN_SIZE: u32 = 16;

/// Largest obstacle edge length, in pixels.
pub const OBSTACLE_MAX_SIZE: u32 = 64;

/// Smallest obstacle speed, in pixels per second.
pub const OBSTACLE_MIN_SPEED: u32 = 50;

/// Largest obstacle speed, in pixels per second.
pub const OBSTACLE_MAX_SPEED: u32 = 150;

/// A handle to the process-wide pseudo-random generator, passed explicitly
/// to whatever draws from it.
pub struct GameRng {}

impl GameRng {
    /// A handle to the process generator.
    pub fn new() -> GameRng {
        GameRng {  }
    }
}

/// Relies on `macroquad::rand::gen_range` (quad_rand's PCG-backed draw):
/// its source maps one generator step into the requested range, so the
/// result lies between `low` and `high`; which value comes back depends on
/// the generator's process-wide state.
#[verifier::external_body]
fn gen_range_u32(rng: &mut GameRng, low: u32, high: u32) -> (r: u32)
    requires
        low <= high,
    ensures
        low <= r <= high,
{
    macroquad::rand::gen_range(low, high)
}

/// A freshly spawned obstacle: sized and sped within the generation ranges,
/// horizontally within the screen with its whole box, vertically just above
/// the top with its whole box, and not collided.
pub open spec fn spawned_obstacle_ok(o: Entity, screen_w: int) -> bool {
    &&& OBSTACLE_MIN_SIZE <= o.size <= OBSTACLE_MAX_SIZE
    &&& OBSTACLE_MIN_SPEED <= o.speed <= OBSTACLE_MAX_SPEED
    &&& o.y as int == -((o.size as int) * (COORD_SCALE as int))
    &&& (o.size as int) * (HALF_SCALE as int) <= o.x as int
    &&& o.x as int <= screen_w * (COORD_SCALE as int) - (o.size as int) * (HALF_SCALE as int)
    &&& !o.collided
    &&& o.valid()
}

/// Builds the obstacle a successful spawn trial decided on: centered at
/// `x_mpx` (thousandths of a pixel), hanging its whole box above the top of
/// the screen at `y = -size`, falling at `speed`, not collided.
pub fn make_obstacle(size: u32, speed: u32, x_mpx: u32) -> (o: Entity)
    requires
        OBSTACLE_MIN_SIZE <= size <= OBSTACLE_MAX_SIZE,
        OBSTACLE_MIN_SPEED <= speed <= OBSTACLE_MAX_SPEED,
        x_mpx <= 2_000_000_000,
    ensures
        o.x == x_mpx,
        o.y as int == -((size as int) * (COORD_SCALE as int)),
        o.size == size,
        o.speed == speed,
        !o.collided,
        o.valid(),
{
    Entity {
        x: x_mpx as i64,
        y: -(size as i64 * COORD_SCALE),
        size,
        speed,
        collided: false,
    }
}

/// The per-frame spawn trial: with five chances in a hundred, returns a new
/// obstacle whose size, speed and horizontal position are drawn from the
/// generation ranges; otherwise returns nothing. Which outcome occurs is up
/// to the generator, but every returned obstacle satisfies
/// [`spawned_obstacle_ok`].
pub fn maybe_spawn(rng: &mut GameRng, screen_w: u32) -> (r: Option<Entity>)
    requires
        MIN_SCREEN_DIM <= screen_w <= MAX_SCREEN_DIM,
    ensures
        (match r {
            Some(o) => spawned_obstacle_ok(o, screen_w as int),
            None => true,
        }),
{
    let roll: u32 = gen_range_u32(rng, 0, SPAWN_ROLL_BOUND);
    if roll >= SPAWN_THRESHOLD {
        let size: u32 = gen_range_u32(rng, OBSTACLE_MIN_SIZE, OBSTACLE_MAX_SIZE);
        let speed: u32 = gen_range_u32(rng, OBSTACLE_MIN_SPEED, OBSTACLE_MAX_SPEED);
        let half: u32 = size * 500;
        let x_hi: u32 = screen_w * 1000 - half;
        let x: u32 = gen_range_u32(rng, half, x_hi);
        Some(make_obstacle(size, speed, x))
    } else {
        None
    }
}

} // verus!
