//! Entities and their square bounding boxes, on an exact integer grid.
//!
//! Screen-space positions are stored in thousandths of a pixel, so frame
//! integration (speed in pixels per second times a frame time in
//! milliseconds) is represented without loss: one millisecond of movement at
//! one pixel per second is exactly one unit.

use vstd::prelude::*;

verus! {

/// Units per pixel: positions and box extents are thousandths of a pixel.
pub const COORD_SCALE: i64 = 1000;

/// Units per half pixel, used for the half-extent of a box of a whole-pixel size.
pub const HALF_SCALE: i64 = 500;

/// Coordinates never leave `[-POS_LIMIT, POS_LIMIT]`; movement saturates there.
/// The bound is far beyond any reachable screen, and keeps every kinematic
/// update inside `i64`.
pub const POS_LIMIT: i64 = 4_000_000_000_000_000_000;

/// Largest edge length, in pixels, of an entity's bounding box.
pub const SIZE_LIMIT: u32 = 1024;

/// Largest scalar speed, in pixels per second, of an entity.
pub const SPEED_LIMIT: u32 = 1000;

/// The shared shape of the ship, the obstacles and the projectiles.
///
/// `x`, `y` is the center of the entity's square bounding box, in thousandths
/// of a pixel; `size` is the edge length of that box in whole pixels; `speed`
/// is a scalar in pixels per second whose direction depends on the entity's
/// role (obstacles fall, projectiles rise, the ship follows input on both
/// axes). `collided` is set once the entity is consumed by a collision and
/// makes the next prune remove it.
#[derive(Clone, Copy, PartialEq, Eq, Structural, Debug)]
pub struct Entity {
    pub x: i64,
    pub y: i64,
    pub size: u32,
    pub speed: u32,
    pub collided: bool,
}

/// An axis-aligned box: `x`, `y` is the top-left corner, `w` and `h` the
/// extents, all in thousandths of a pixel.
#[derive(Clone, Copy, PartialEq, Eq, Structural, Debug)]
pub struct Box2 {
    pub x: i64,
    pub y: i64,
    pub w: i64,
    pub h: i64,
}

impl Entity {
    /// Bounds under which all arithmetic on an entity stays exact.
    pub open spec fn valid(self) -> bool {
        &&& -POS_LIMIT <= self.x <= POS_LIMIT
        &&& -POS_LIMIT <= self.y <= POS_LIMIT
        &&& 1 <= self.size <= SIZE_LIMIT
        &&& self.speed <= SPEED_LIMIT
    }

    /// Half the edge length of the bounding box, in thousandths of a pixel.
    pub open spec fn half_extent(self) -> int {
        self.size * HALF_SCALE
    }

    /// The two square boxes share at least one point (edges touching count).
    pub open spec fn overlaps(self, other: Entity) -> bool {
        &&& self.x - self.half_extent() <= other.x + other.half_extent()
        &&& self.x + self.half_extent() >= other.x - other.half_extent()
        &&& self.y - self.half_extent() <= other.y + other.half_extent()
        &&& self.y + self.half_extent() >= other.y - other.half_extent()
    }

    /// The entity's bounding box, centered on its position.
    pub fn rect(&self) -> (r: Box2)
        requires
            self.valid(),
        ensures
            r.x == self.x - self.half_extent(),
            r.y == self.y - self.half_extent(),
            r.w == self.size * COORD_SCALE,
            r.h == self.size * COORD_SCALE,
    {
        let half: i64 = self.size as i64 * HALF_SCALE;
        Box2 {
            x: self.x - half,
            y: self.y - half,
            w: self.size as i64 * COORD_SCALE,
            h: self.size as i64 * COORD_SCALE,
        }
    }

    /// Whether the two bounding boxes overlap, edges touching included.
    pub fn collide(&self, other: &Entity) -> (r: bool)
        requires
            self.valid(),
            other.valid(),
        ensures
            r == self.overlaps(*other),
    {
        let a = self.rect();
        let b = other.rect();
        a.x <= b.x + b.w && a.x + a.w >= b.x && a.y <= b.y + b.h && a.y + a.h >= b.y
    }
}

/// `v` pulled into `[lo, hi]`.
pub open spec fn clamped(v: int, lo: int, hi: int) -> int {
    if v < lo {
        lo
    } else if v > hi {
        hi
    } else {
        v
    }
}

/// Pulls a coordinate into `[lo, hi]`.
pub fn clamp_coord(v: i64, lo: i64, hi: i64) -> (r: i64)
    requires
        lo <= hi,
    ensures
        r == clamped(v as int, lo as int, hi as int),
{
    if v < lo {
        lo
    } else if v > hi {
        hi
    } else {
        v
    }
}

} // verus!
