//! The entity store: the ship, the obstacles and the projectiles, with their
//! per-frame kinematics.
//!
//! The store owns per-frame mutation of positions: obstacles fall, projectiles
//! rise, the ship follows held input and is clamped to the screen. Pruning
//! removes what left the screen or was consumed by a collision; resetting
//! clears the dynamic collections and recenters the ship for a new session.

use vstd::prelude::*;
use crate::geom::{clamp_coord, clamped, Entity, COORD_SCALE, HALF_SCALE, POS_LIMIT, SPEED_LIMIT};

verus! {

/// Smallest accepted screen edge, in pixels; keeps the spawner's horizontal
/// range non-empty for the largest obstacle.
pub const MIN_SCREEN_DIM: u32 = 64;

/// Largest accepted screen edge, in pixels; keeps sub-pixel coordinates and
/// the spawner's draws inside their integer types.
pub const MAX_SCREEN_DIM: u32 = 1_000_000;

/// Edge length of the ship's (rendering-only) bounding box, in pixels.
pub const SHIP_SIZE: u32 = 16;

/// The ship's fixed speed, in pixels per second.
pub const SHIP_SPEED: u32 = 200;

/// Every entity of the sequence is within [`Entity::valid`] bounds.
pub open spec fn all_valid(s: Seq<Entity>) -> bool {
    forall|i: int| 0 <= i < s.len() ==> (#[trigger] s[i]).valid()
}

/// Where a falling entity's center ends up after `dt` milliseconds,
/// saturating at the coordinate ceiling.
pub open spec fn fallen(y: int, speed: int, dt: int) -> int {
    if y + speed * dt > POS_LIMIT {
        POS_LIMIT as int
    } else {
        y + speed * dt
    }
}

/// Where a rising entity's center ends up after `dt` milliseconds,
/// saturating at the coordinate floor.
pub open spec fn risen(y: int, speed: int, dt: int) -> int {
    if y - speed * dt < -POS_LIMIT {
        -POS_LIMIT as int
    } else {
        y - speed * dt
    }
}

/// An obstacle after one frame of falling.
pub open spec fn advanced_obstacle(e: Entity, dt: int) -> Entity {
    Entity { y: fallen(e.y as int, e.speed as int, dt) as i64, ..e }
}

/// A projectile after one frame of rising.
pub open spec fn advanced_projectile(e: Entity, dt: int) -> Entity {
    Entity { y: risen(e.y as int, e.speed as int, dt) as i64, ..e }
}

/// An obstacle stays in the store while it is above the bottom of the screen
/// and not yet consumed by a collision.
pub open spec fn obstacle_kept(e: Entity, screen_h: int) -> bool {
    &&& (e.y as int) < (screen_h + e.size as int) * (COORD_SCALE as int)
    &&& !e.collided
}

/// A projectile stays in the store while it is below the top of the screen
/// and not yet consumed by a collision.
pub open spec fn projectile_kept(e: Entity) -> bool {
    &&& (e.y as int) > -((e.size as int) * (HALF_SCALE as int))
    &&& !e.collided
}

/// The obstacles that survive a prune, in their original order.
pub open spec fn pruned_obstacles(s: Seq<Entity>, screen_h: int) -> Seq<Entity>
    decreases s.len(),
{
    if s.len() == 0 {
        Seq::<Entity>::empty()
    } else {
        let rest = pruned_obstacles(s.drop_last(), screen_h);
        if obstacle_kept(s.last(), screen_h) {
            rest.push(s.last())
        } else {
            rest
        }
    }
}

/// The projectiles that survive a prune, in their original order.
pub open spec fn pruned_projectiles(s: Seq<Entity>) -> Seq<Entity>
    decreases s.len(),
{
    if s.len() == 0 {
        Seq::<Entity>::empty()
    } else {
        let rest = pruned_projectiles(s.drop_last());
        if projectile_kept(s.last()) {
            rest.push(s.last())
        } else {
            rest
        }
    }
}

/// Every survivor of an obstacle prune is kept by the prune predicate, and
/// survivors of a valid sequence are valid.
pub proof fn lemma_pruned_obstacles_props(s: Seq<Entity>, screen_h: int)
    ensures
        forall|i: int|
            0 <= i < pruned_obstacles(s, screen_h).len() ==> obstacle_kept(
                #[trigger] pruned_obstacles(s, screen_h)[i],
                screen_h,
            ),
        all_valid(s) ==> all_valid(pruned_obstacles(s, screen_h)),
    decreases s.len(),
{
    if s.len() > 0 {
        assert(all_valid(s) ==> all_valid(s.drop_last()));
        lemma_pruned_obstacles_props(s.drop_last(), screen_h);
        let rest = pruned_obstacles(s.drop_last(), screen_h);
        let out = pruned_obstacles(s, screen_h);
        if obstacle_kept(s.last(), screen_h) {
            assert(out == rest.push(s.last()));
            assert forall|i: int| 0 <= i < out.len() implies obstacle_kept(
                #[trigger] out[i],
                screen_h,
            ) by {
                if i < rest.len() {
                    assert(out[i] == rest[i]);
                } else {
                    assert(out[i] == s.last());
                }
            }
            if all_valid(s) {
                assert(s.last() == s[s.len() - 1]);
                assert(s.last().valid());
                assert forall|i: int| 0 <= i < out.len() implies (#[trigger] out[i]).valid() by {
                    if i < rest.len() {
                        assert(out[i] == rest[i]);
                    } else {
                        assert(out[i] == s.last());
                    }
                }
            }
        } else {
            assert(out == rest);
        }
    }
}

/// Every survivor of a projectile prune is kept by the prune predicate, and
/// survivors of a valid sequence are valid.
pub proof fn lemma_pruned_projectiles_props(s: Seq<Entity>)
    ensures
        forall|i: int|
            0 <= i < pruned_projectiles(s).len() ==> projectile_kept(
                #[trigger] pruned_projectiles(s)[i],
            ),
        all_valid(s) ==> all_valid(pruned_projectiles(s)),
    decreases s.len(),
{
    if s.len() > 0 {
        assert(all_valid(s) ==> all_valid(s.drop_last()));
        lemma_pruned_projectiles_props(s.drop_last());
        let rest = pruned_projectiles(s.drop_last());
        let out = pruned_projectiles(s);
        if projectile_kept(s.last()) {
            assert(out == rest.push(s.last()));
            assert forall|i: int| 0 <= i < out.len() implies projectile_kept(
                #[trigger] out[i],
            ) by {
                if i < rest.len() {
                    assert(out[i] == rest[i]);
                } else {
                    assert(out[i] == s.last());
                }
            }
            if all_valid(s) {
                assert(s.last() == s[s.len() - 1]);
                assert(s.last().valid());
                assert forall|i: int| 0 <= i < out.len() implies (#[trigger] out[i]).valid() by {
                    if i < rest.len() {
                        assert(out[i] == rest[i]);
                    } else {
                        assert(out[i] == s.last());
                    }
                }
            }
        } else {
            assert(out == rest);
        }
    }
}

/// A coordinate pair on the current screen, in thousandths of a pixel.
pub open spec fn on_screen(x: int, y: int, screen_w: int, screen_h: int) -> bool {
    &&& 0 <= x <= screen_w * (COORD_SCALE as int)
    &&& 0 <= y <= screen_h * (COORD_SCALE as int)
}

/// A held-input shift of one ship coordinate: the two opposing directions
/// each move by `speed * dt` when held, exactly as the frame integrates them.
pub open spec fn shifted(pos: int, dec: bool, inc: bool, speed: int, dt: int) -> int {
    pos - (if dec {
        speed * dt
    } else {
        0
    }) + (if inc {
        speed * dt
    } else {
        0
    })
}

/// The authoritative home of the ship and the dynamic entity collections.
pub struct EntityStore {
    /// The player's ship; its fixed-size box is what the fatal-collision
    /// pass tests obstacles against.
    pub ship: Entity,
    /// Falling obstacles, in spawn order.
    pub obstacles: Vec<Entity>,
    /// Rising projectiles, in firing order.
    pub projectiles: Vec<Entity>,
    /// Screen width in pixels.
    pub screen_w: u32,
    /// Screen height in pixels.
    pub screen_h: u32,
}

/// What [`EntityStore::reset`] leaves behind: empty collections, the ship at
/// the screen center with its other fields kept, the screen unchanged.
pub open spec fn reset_outcome(pre: EntityStore, post: EntityStore) -> bool {
    &&& post.obstacles@ == Seq::<Entity>::empty()
    &&& post.projectiles@ == Seq::<Entity>::empty()
    &&& post.ship == (Entity { x: pre.center_x() as i64, y: pre.center_y() as i64, ..pre.ship })
    &&& post.screen_w == pre.screen_w
    &&& post.screen_h == pre.screen_h
}

impl EntityStore {
    /// Bounds under which every frame operation is exact.
    pub open spec fn wf(self) -> bool {
        &&& MIN_SCREEN_DIM <= self.screen_w <= MAX_SCREEN_DIM
        &&& MIN_SCREEN_DIM <= self.screen_h <= MAX_SCREEN_DIM
        &&& self.ship.valid()
        &&& all_valid(self.obstacles@)
        &&& all_valid(self.projectiles@)
    }

    /// The ship's center is on the screen.
    pub open spec fn ship_in_bounds(self) -> bool {
        on_screen(self.ship.x as int, self.ship.y as int, self.screen_w as int, self.screen_h as int)
    }

    /// Horizontal screen center, in thousandths of a pixel.
    pub open spec fn center_x(self) -> int {
        (self.screen_w as int) * (HALF_SCALE as int)
    }

    /// Vertical screen center, in thousandths of a pixel.
    pub open spec fn center_y(self) -> int {
        (self.screen_h as int) * (HALF_SCALE as int)
    }

    /// A fresh store for the given screen: no obstacles, no projectiles, the
    /// ship centered.
    pub fn new(screen_w: u32, screen_h: u32) -> (s: EntityStore)
        requires
            MIN_SCREEN_DIM <= screen_w <= MAX_SCREEN_DIM,
            MIN_SCREEN_DIM <= screen_h <= MAX_SCREEN_DIM,
        ensures
            s.wf(),
            s.ship_in_bounds(),
            s.screen_w == screen_w,
            s.screen_h == screen_h,
            s.obstacles@ == Seq::<Entity>::empty(),
            s.projectiles@ == Seq::<Entity>::empty(),
            s.ship.x == s.center_x(),
            s.ship.y == s.center_y(),
            s.ship.size == SHIP_SIZE,
            s.ship.speed == SHIP_SPEED,
            !s.ship.collided,
    {
        let s = EntityStore {
            ship: Entity {
                x: screen_w as i64 * HALF_SCALE,
                y: screen_h as i64 * HALF_SCALE,
                size: SHIP_SIZE,
                speed: SHIP_SPEED,
                collided: false,
            },
            obstacles: Vec::new(),
            projectiles: Vec::new(),
            screen_w,
            screen_h,
        };
        proof {
            assert(s.obstacles@ =~= Seq::<Entity>::empty());
            assert(s.projectiles@ =~= Seq::<Entity>::empty());
        }
        s
    }

    /// One frame of movement: every obstacle falls and every projectile rises
    /// by its own `speed * dt`; the ship is moved by input handling, not here.
    pub fn advance(&mut self, dt: u32)
        requires
            old(self).wf(),
        ensures
            final(self).wf(),
            final(self).ship == old(self).ship,
            final(self).screen_w == old(self).screen_w,
            final(self).screen_h == old(self).screen_h,
            final(self).obstacles@.len() == old(self).obstacles@.len(),
            final(self).projectiles@.len() == old(self).projectiles@.len(),
            forall|i: int|
                0 <= i < old(self).obstacles@.len() ==> final(self).obstacles@[i]
                    == advanced_obstacle(#[trigger] old(self).obstacles@[i], dt as int),
            forall|i: int|
                0 <= i < old(self).projectiles@.len() ==> final(self).projectiles@[i]
                    == advanced_projectile(#[trigger] old(self).projectiles@[i], dt as int),
    {
        advance_obstacles(&mut self.obstacles, dt);
        advance_projectiles(&mut self.projectiles, dt);
    }

    /// Removes the obstacles that left the bottom of the screen and the
    /// projectiles that left the top, and everything consumed by a collision.
    /// Both filters apply every frame; afterwards nothing in the store is
    /// marked collided.
    pub fn prune(&mut self)
        requires
            old(self).wf(),
        ensures
            final(self).wf(),
            final(self).ship == old(self).ship,
            final(self).screen_w == old(self).screen_w,
            final(self).screen_h == old(self).screen_h,
            final(self).obstacles@ == pruned_obstacles(
                old(self).obstacles@,
                old(self).screen_h as int,
            ),
            final(self).projectiles@ == pruned_projectiles(old(self).projectiles@),
            forall|i: int|
                0 <= i < final(self).obstacles@.len()
                    ==> !(#[trigger] final(self).obstacles@[i]).collided,
            forall|i: int|
                0 <= i < final(self).projectiles@.len()
                    ==> !(#[trigger] final(self).projectiles@[i]).collided,
    {
        let h: u32 = self.screen_h;
        prune_obstacles(&mut self.obstacles, h);
        prune_projectiles(&mut self.projectiles);
        proof {
            lemma_pruned_obstacles_props(old(self).obstacles@, h as int);
            lemma_pruned_projectiles_props(old(self).projectiles@);
        }
    }

    /// Begins a new session's entity state: clears both collections and puts
    /// the ship back at the screen center.
    pub fn reset(&mut self)
        requires
            old(self).wf(),
        ensures
            final(self).wf(),
            final(self).ship_in_bounds(),
            reset_outcome(*old(self), *final(self)),
    {
        self.obstacles.clear();
        self.projectiles.clear();
        self.ship = Entity {
            x: self.screen_w as i64 * HALF_SCALE,
            y: self.screen_h as i64 * HALF_SCALE,
            ..self.ship
        };
        proof {
            assert(self.obstacles@ =~= Seq::<Entity>::empty());
            assert(self.projectiles@ =~= Seq::<Entity>::empty());
        }
    }

    /// Applies one frame of held directional input to the ship, without
    /// clamping: each held direction moves the ship by `speed * dt` on its
    /// axis, opposing directions cancelling.
    pub fn shift_ship(&mut self, left: bool, right: bool, up: bool, down: bool, dt: u32)
        requires
            old(self).wf(),
            old(self).ship_in_bounds(),
        ensures
            final(self).wf(),
            final(self).ship.x == shifted(
                old(self).ship.x as int,
                left,
                right,
                old(self).ship.speed as int,
                dt as int,
            ),
            final(self).ship.y == shifted(
                old(self).ship.y as int,
                up,
                down,
                old(self).ship.speed as int,
                dt as int,
            ),
            final(self).ship.size == old(self).ship.size,
            final(self).ship.speed == old(self).ship.speed,
            final(self).ship.collided == old(self).ship.collided,
            final(self).obstacles == old(self).obstacles,
            final(self).projectiles == old(self).projectiles,
            final(self).screen_w == old(self).screen_w,
            final(self).screen_h == old(self).screen_h,
    {
        proof {
            assert(0 <= self.ship.speed as int * dt as int <= 4_294_967_295_000int)
                by (nonlinear_arith)
                requires
                    0 <= self.ship.speed <= SPEED_LIMIT,
                    0 <= dt <= 4_294_967_295,
            ;
        }
        let d: i64 = self.ship.speed as i64 * dt as i64;
        let mut x: i64 = self.ship.x;
        let mut y: i64 = self.ship.y;
        if left {
            x = x - d;
        }
        if right {
            x = x + d;
        }
        if up {
            y = y - d;
        }
        if down {
            y = y + d;
        }
        self.ship = Entity { x, y, ..self.ship };
    }

    /// Pulls the ship's center back onto the screen, as the end of every
    /// frame's input handling does.
    pub fn clamp_ship(&mut self)
        requires
            old(self).wf(),
        ensures
            final(self).wf(),
            final(self).ship_in_bounds(),
            final(self).ship.x == clamped(
                old(self).ship.x as int,
                0,
                old(self).screen_w as int * COORD_SCALE as int,
            ),
            final(self).ship.y == clamped(
                old(self).ship.y as int,
                0,
                old(self).screen_h as int * COORD_SCALE as int,
            ),
            final(self).ship.size == old(self).ship.size,
            final(self).ship.speed == old(self).ship.speed,
            final(self).ship.collided == old(self).ship.collided,
            final(self).obstacles == old(self).obstacles,
            final(self).projectiles == old(self).projectiles,
            final(self).screen_w == old(self).screen_w,
            final(self).screen_h == old(self).screen_h,
    {
        let x: i64 = clamp_coord(self.ship.x, 0, self.screen_w as i64 * COORD_SCALE);
        let y: i64 = clamp_coord(self.ship.y, 0, self.screen_h as i64 * COORD_SCALE);
        self.ship = Entity { x, y, ..self.ship };
    }

    /// Appends a freshly spawned obstacle.
    pub fn add_obstacle(&mut self, e: Entity)
        requires
            old(self).wf(),
            e.valid(),
        ensures
            final(self).wf(),
            final(self).obstacles@ == old(self).obstacles@.push(e),
            final(self).projectiles == old(self).projectiles,
            final(self).ship == old(self).ship,
            final(self).screen_w == old(self).screen_w,
            final(self).screen_h == old(self).screen_h,
    {
        self.obstacles.push(e);
    }

    /// Appends a freshly fired projectile.
    pub fn add_projectile(&mut self, e: Entity)
        requires
            old(self).wf(),
            e.valid(),
        ensures
            final(self).wf(),
            final(self).projectiles@ == old(self).projectiles@.push(e),
            final(self).obstacles == old(self).obstacles,
            final(self).ship == old(self).ship,
            final(self).screen_w == old(self).screen_w,
            final(self).screen_h == old(self).screen_h,
    {
        self.projectiles.push(e);
    }
}

/// Applies one frame of falling to every obstacle.
fn advance_obstacles(v: &mut Vec<Entity>, dt: u32)
    requires
        all_valid(old(v)@),
    ensures
        all_valid(final(v)@),
        final(v)@.len() == old(v)@.len(),
        forall|i: int|
            0 <= i < old(v)@.len() ==> final(v)@[i] == advanced_obstacle(
                #[trigger] old(v)@[i],
                dt as int,
            ),
{
    let n: usize = v.len();
    let mut i: usize = 0;
    while i < n
        invariant
            0 <= i <= n,
            n == v@.len(),
            v@.len() == old(v)@.len(),
            forall|j: int| i <= j < n ==> v@[j] == #[trigger] old(v)@[j],
            forall|j: int|
                0 <= j < i ==> v@[j] == advanced_obstacle(#[trigger] old(v)@[j], dt as int),
            all_valid(v@),
        decreases n - i,
    {
        let e = v[i];
        proof {
            assert(e.valid());
            assert(0 <= e.speed as int * dt as int <= 4_294_967_295_000int) by (nonlinear_arith)
                requires
                    0 <= e.speed <= SPEED_LIMIT,
                    0 <= dt <= 4_294_967_295,
            ;
        }
        let delta: i64 = e.speed as i64 * dt as i64;
        let ny: i64 = if e.y <= POS_LIMIT - delta {
            e.y + delta
        } else {
            POS_LIMIT
        };
        v[i] = Entity { y: ny, ..e };
        i = i + 1;
    }
}

/// Applies one frame of rising to every projectile.
fn advance_projectiles(v: &mut Vec<Entity>, dt: u32)
    requires
        all_valid(old(v)@),
    ensures
        all_valid(final(v)@),
        final(v)@.len() == old(v)@.len(),
        forall|i: int|
            0 <= i < old(v)@.len() ==> final(v)@[i] == advanced_projectile(
                #[trigger] old(v)@[i],
                dt as int,
            ),
{
    let n: usize = v.len();
    let mut i: usize = 0;
    while i < n
        invariant
            0 <= i <= n,
            n == v@.len(),
            v@.len() == old(v)@.len(),
            forall|j: int| i <= j < n ==> v@[j] == #[trigger] old(v)@[j],
            forall|j: int|
                0 <= j < i ==> v@[j] == advanced_projectile(#[trigger] old(v)@[j], dt as int),
            all_valid(v@),
        decreases n - i,
    {
        let e = v[i];
        proof {
            assert(e.valid());
            assert(0 <= e.speed as int * dt as int <= 4_294_967_295_000int) by (nonlinear_arith)
                requires
                    0 <= e.speed <= SPEED_LIMIT,
                    0 <= dt <= 4_294_967_295,
            ;
        }
        let delta: i64 = e.speed as i64 * dt as i64;
        let ny: i64 = if e.y >= -POS_LIMIT + delta {
            e.y - delta
        } else {
            -POS_LIMIT
        };
        v[i] = Entity { y: ny, ..e };
        i = i + 1;
    }
}

/// Keeps exactly the obstacles still above the bottom of the screen and not
/// consumed by a collision.
fn prune_obstacles(v: &mut Vec<Entity>, screen_h: u32)
    requires
        all_valid(old(v)@),
        screen_h <= MAX_SCREEN_DIM,
    ensures
        final(v)@ == pruned_obstacles(old(v)@, screen_h as int),
{
    let n: usize = v.len();
    let mut out: Vec<Entity> = Vec::new();
    let mut i: usize = 0;
    proof {
        assert(out@ =~= pruned_obstacles(v@.subrange(0, 0), screen_h as int));
    }
    while i < n
        invariant
            0 <= i <= n,
            n == v@.len(),
            v@ == old(v)@,
            all_valid(v@),
            out@ == pruned_obstacles(v@.subrange(0, i as int), screen_h as int),
        decreases n - i,
    {
        let e = v[i];
        proof {
            assert(e.valid());
            assert(v@.subrange(0, i as int + 1).drop_last() =~= v@.subrange(0, i as int));
            assert(v@.subrange(0, i as int + 1).last() == e);
        }
        if e.y < (screen_h as i64 + e.size as i64) * COORD_SCALE && !e.collided {
            out.push(e);
        }
        proof {
            assert(obstacle_kept(e, screen_h as int) == ((e.y as int) < (screen_h as int
                + e.size as int) * (COORD_SCALE as int) && !e.collided));
        }
        i = i + 1;
    }
    proof {
        assert(v@.subrange(0, n as int) =~= v@);
    }
    *v = out;
}

/// Keeps exactly the projectiles still below the top of the screen and not
/// consumed by a collision.
fn prune_projectiles(v: &mut Vec<Entity>)
    requires
        all_valid(old(v)@),
    ensures
        final(v)@ == pruned_projectiles(old(v)@),
{
    let n: usize = v.len();
    let mut out: Vec<Entity> = Vec::new();
    let mut i: usize = 0;
    proof {
        assert(out@ =~= pruned_projectiles(v@.subrange(0, 0)));
    }
    while i < n
        invariant
            0 <= i <= n,
            n == v@.len(),
            v@ == old(v)@,
            all_valid(v@),
            out@ == pruned_projectiles(v@.subrange(0, i as int)),
        decreases n - i,
    {
        let e = v[i];
        proof {
            assert(e.valid());
            assert(v@.subrange(0, i as int + 1).drop_last() =~= v@.subrange(0, i as int));
            assert(v@.subrange(0, i as int + 1).last() == e);
        }
        if e.y > -(e.size as i64 * HALF_SCALE) && !e.collided {
            out.push(e);
        }
        i = i + 1;
    }
    proof {
        assert(v@.subrange(0, n as int) =~= v@);
    }
    *v = out;
}

/// Resetting twice in a row leaves the same state as resetting once: the
/// collections are already empty and the ship already at the screen center,
/// so the second reset changes nothing.
pub proof fn lemma_reset_idempotent(s0: EntityStore, s1: EntityStore, s2: EntityStore)
    requires
        reset_outcome(s0, s1),
        reset_outcome(s1, s2),
    ensures
        s2.ship == s1.ship,
        s2.obstacles@ == s1.obstacles@,
        s2.projectiles@ == s1.projectiles@,
        s2.screen_w == s1.screen_w,
        s2.screen_h == s1.screen_h,
{
}

} // verus!
