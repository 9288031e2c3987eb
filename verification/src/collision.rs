//! Collision detection and scoring: the two per-frame passes.
//!
//! Each frame in play runs, in order, a fatal pass (any obstacle box against
//! the ship box ends the session) and a destructive pass (every overlapping
//! projectile/obstacle pair marks both entities collided and scores the
//! obstacle's size). The destructive pass deliberately tests every pair,
//! without consulting marks set earlier in the same pass: one projectile can
//! destroy several overlapping obstacles in one frame, and one obstacle can
//! be scored by several projectiles, exactly as the game has always behaved.

use vstd::prelude::*;
use crate::geom::Entity;
use crate::store::all_valid;

verus! {

/// One scoring hit: the destroyed obstacle's center and size, for the
/// caller's cosmetic effects (particles, sound) and nothing else.
#[derive(Clone, Copy, PartialEq, Eq, Structural, Debug)]
pub struct Destroyed {
    pub x: i64,
    pub y: i64,
    pub size: u32,
}

/// Some obstacle among `obs` overlaps the ship's box.
pub open spec fn ship_hit(ship: Entity, obs: Seq<Entity>) -> bool {
    exists|i: int| 0 <= i < obs.len() && ship.overlaps(#[trigger] obs[i])
}

/// Some projectile among the first `upto` of `bullets` overlaps `o`.
pub open spec fn obstacle_hit_prefix(o: Entity, bullets: Seq<Entity>, upto: int) -> bool {
    exists|j: int| 0 <= j < upto && (#[trigger] bullets[j]).overlaps(o)
}

/// Some projectile among `bullets` overlaps `o`.
pub open spec fn obstacle_hit(o: Entity, bullets: Seq<Entity>) -> bool {
    obstacle_hit_prefix(o, bullets, bullets.len() as int)
}

/// The projectile `b` overlaps some obstacle among the first `upto` of `obs`.
pub open spec fn bullet_hit_prefix(b: Entity, obs: Seq<Entity>, upto: int) -> bool {
    exists|i: int| 0 <= i < upto && b.overlaps(#[trigger] obs[i])
}

/// The projectile `b` overlaps some obstacle among `obs`.
pub open spec fn bullet_hit(b: Entity, obs: Seq<Entity>) -> bool {
    bullet_hit_prefix(b, obs, obs.len() as int)
}

/// The scoring hits that the obstacle `o` takes from `bullets`, one per
/// overlapping projectile, in projectile order.
pub open spec fn events_for(o: Entity, bullets: Seq<Entity>) -> Seq<Destroyed>
    decreases bullets.len(),
{
    if bullets.len() == 0 {
        Seq::<Destroyed>::empty()
    } else {
        let rest = events_for(o, bullets.drop_last());
        if bullets.last().overlaps(o) {
            rest.push(Destroyed { x: o.x, y: o.y, size: o.size })
        } else {
            rest
        }
    }
}

/// All scoring hits of a destructive pass, in the pass's own order:
/// obstacles outermost, projectiles innermost.
pub open spec fn destroyed_events(obs: Seq<Entity>, bullets: Seq<Entity>) -> Seq<Destroyed>
    decreases obs.len(),
{
    if obs.len() == 0 {
        Seq::<Destroyed>::empty()
    } else {
        destroyed_events(obs.drop_last(), bullets) + events_for(obs.last(), bullets)
    }
}

/// The summed obstacle sizes of a hit list: the score the pass awards.
pub open spec fn total_size(evts: Seq<Destroyed>) -> int
    decreases evts.len(),
{
    if evts.len() == 0 {
        0
    } else {
        total_size(evts.drop_last()) + evts.last().size
    }
}

/// `u32` addition that stops at the top instead of wrapping.
pub open spec fn sat_add_u32(a: int, b: int) -> int {
    if a + b > u32::MAX {
        u32::MAX as int
    } else {
        a + b
    }
}

/// The fatal pass: whether any obstacle's box overlaps the ship's box.
/// Detecting this ends the session; the caller owes the high score a write
/// exactly when the score equals it at this instant.
pub fn fatal_pass(ship: &Entity, obstacles: &Vec<Entity>) -> (r: bool)
    requires
        ship.valid(),
        all_valid(obstacles@),
    ensures
        r == ship_hit(*ship, obstacles@),
{
    let n: usize = obstacles.len();
    let mut i: usize = 0;
    while i < n
        invariant
            0 <= i <= n,
            n == obstacles@.len(),
            ship.valid(),
            all_valid(obstacles@),
            !ship_hit(*ship, obstacles@.subrange(0, i as int)),
        decreases n - i,
    {
        let e = obstacles[i];
        proof {
            assert(e.valid());
        }
        if ship.collide(&e) {
            proof {
                assert(ship.overlaps(obstacles@[i as int]));
            }
            return true;
        }
        proof {
            assert forall|k: int| 0 <= k < i as int + 1 implies !ship.overlaps(
                #[trigger] obstacles@.subrange(0, i as int + 1)[k],
            ) by {
                if k < i as int {
                    assert(obstacles@.subrange(0, i as int)[k] == obstacles@.subrange(
                        0,
                        i as int + 1,
                    )[k]);
                }
            }
        }
        i = i + 1;
    }
    proof {
        assert(obstacles@.subrange(0, n as int) =~= obstacles@);
    }
    false
}

/// The destructive pass: every overlapping projectile/obstacle pair marks
/// both entities collided, adds the obstacle's size to the score (saturating
/// at the top of `u32`), and lifts the high score to the score whenever the
/// score passes it. Returns one hit record per scoring pair, in pass order.
///
/// Flags set earlier in the same pass are deliberately not consulted, so a
/// single projectile may score several obstacles in one frame and a single
/// obstacle may be scored by several projectiles; every overlapping pair
/// counts.
pub fn destructive_pass(
    obstacles: &mut Vec<Entity>,
    projectiles: &mut Vec<Entity>,
    score: &mut u32,
    high_score: &mut u32,
) -> (destroyed: Vec<Destroyed>)
    requires
        all_valid(old(obstacles)@),
        all_valid(old(projectiles)@),
        *old(score) <= *old(high_score),
    ensures
        all_valid(final(obstacles)@),
        all_valid(final(projectiles)@),
        final(obstacles)@.len() == old(obstacles)@.len(),
        final(projectiles)@.len() == old(projectiles)@.len(),
        forall|k: int|
            0 <= k < old(obstacles)@.len() ==> final(obstacles)@[k] == (Entity {
                collided: old(obstacles)@[k].collided || obstacle_hit(
                    #[trigger] old(obstacles)@[k],
                    old(projectiles)@,
                ),
                ..old(obstacles)@[k]
            }),
        forall|k: int|
            0 <= k < old(projectiles)@.len() ==> final(projectiles)@[k] == (Entity {
                collided: old(projectiles)@[k].collided || bullet_hit(
                    #[trigger] old(projectiles)@[k],
                    old(obstacles)@,
                ),
                ..old(projectiles)@[k]
            }),
        destroyed@ == destroyed_events(old(obstacles)@, old(projectiles)@),
        *final(score) == sat_add_u32(
            *old(score) as int,
            total_size(destroyed_events(old(obstacles)@, old(projectiles)@)),
        ),
        *final(high_score) == (if *final(score) > *old(high_score) {
            *final(score) as int
        } else {
            *old(high_score) as int
        }),
        *old(score) <= *final(score),
        *old(high_score) <= *final(high_score),
        *final(score) <= *final(high_score),
{
    let ghost old_obs = obstacles@;
    let ghost old_projs = projectiles@;
    let ghost old_score = *score;
    let ghost old_high = *high_score;
    let n_obs: usize = obstacles.len();
    let n_b: usize = projectiles.len();
    let mut destroyed: Vec<Destroyed> = Vec::new();
    proof {
        assert(destroyed@ =~= destroyed_events(old_obs.subrange(0, 0), old_projs));
    }
    let mut i: usize = 0;
    while i < n_obs
        invariant
            0 <= i <= n_obs,
            n_obs == old_obs.len(),
            n_b == old_projs.len(),
            obstacles@.len() == n_obs,
            projectiles@.len() == n_b,
            all_valid(old_obs),
            all_valid(old_projs),
            forall|k: int|
                0 <= k < i as int ==> obstacles@[k] == (Entity {
                    collided: old_obs[k].collided || obstacle_hit(#[trigger] old_obs[k], old_projs),
                    ..old_obs[k]
                }),
            forall|k: int| i as int <= k < n_obs ==> obstacles@[k] == #[trigger] old_obs[k],
            forall|k: int|
                0 <= k < n_b ==> projectiles@[k] == (Entity {
                    collided: old_projs[k].collided || bullet_hit_prefix(
                        #[trigger] old_projs[k],
                        old_obs,
                        i as int,
                    ),
                    ..old_projs[k]
                }),
            destroyed@ == destroyed_events(old_obs.subrange(0, i as int), old_projs),
            *score == sat_add_u32(old_score as int, total_size(destroyed@)),
            old_score <= *score,
            *high_score == (if *score > old_high {
                *score as int
            } else {
                old_high as int
            }),
        decreases n_obs - i,
    {
        let mut o = obstacles[i];
        let ghost o_orig = old_obs[i as int];
        proof {
            assert(o == o_orig);
            assert(o_orig.valid());
        }
        let mut j: usize = 0;
        while j < n_b
            invariant
                0 <= j <= n_b,
                0 <= i < n_obs,
                n_obs == old_obs.len(),
                n_b == old_projs.len(),
                obstacles@.len() == n_obs,
                projectiles@.len() == n_b,
                all_valid(old_obs),
                all_valid(old_projs),
                o_orig == old_obs[i as int],
                o == (Entity {
                    collided: o_orig.collided || obstacle_hit_prefix(o_orig, old_projs, j as int),
                    ..o_orig
                }),
                forall|k: int|
                    0 <= k < i as int ==> obstacles@[k] == (Entity {
                        collided: old_obs[k].collided || obstacle_hit(
                            #[trigger] old_obs[k],
                            old_projs,
                        ),
                        ..old_obs[k]
                    }),
                forall|k: int| i as int <= k < n_obs ==> obstacles@[k] == #[trigger] old_obs[k],
                forall|k: int|
                    0 <= k < n_b ==> projectiles@[k] == (Entity {
                        collided: old_projs[k].collided || bullet_hit_prefix(
                            #[trigger] old_projs[k],
                            old_obs,
                            i as int,
                        ) || (k < j as int && old_projs[k].overlaps(o_orig)),
                        ..old_projs[k]
                    }),
                destroyed@ == destroyed_events(old_obs.subrange(0, i as int), old_projs)
                    + events_for(o_orig, old_projs.subrange(0, j as int)),
                *score == sat_add_u32(old_score as int, total_size(destroyed@)),
                old_score <= *score,
                *high_score == (if *score > old_high {
                    *score as int
                } else {
                    old_high as int
                }),
            decreases n_b - j,
        {
            let b = projectiles[j];
            let ghost b_orig = old_projs[j as int];
            proof {
                assert(b_orig.valid());
                assert(b.x == b_orig.x && b.y == b_orig.y && b.size == b_orig.size && b.speed
                    == b_orig.speed);
                assert(b.valid());
                assert(o.valid());
            }
            let hit = b.collide(&o);
            proof {
                assert(hit == b_orig.overlaps(o_orig));
                assert(old_projs.subrange(0, j as int + 1).drop_last() =~= old_projs.subrange(
                    0,
                    j as int,
                ));
                assert(old_projs.subrange(0, j as int + 1).last() == b_orig);
            }
            if hit {
                projectiles[j] = Entity { collided: true, ..b };
                o = Entity { collided: true, ..o };
                let gain: u32 = o.size;
                let ghost score_before = *score;
                let ghost destroyed_before = destroyed@;
                if *score > u32::MAX - gain {
                    *score = u32::MAX;
                } else {
                    *score = *score + gain;
                }
                if *score > *high_score {
                    *high_score = *score;
                }
                destroyed.push(Destroyed { x: o.x, y: o.y, size: o.size });
                proof {
                    assert(destroyed@.drop_last() =~= destroyed_before);
                    assert(total_size(destroyed@) == total_size(destroyed_before) + gain);
                    assert(o_orig.size >= 1);
                    assert(obstacle_hit_prefix(o_orig, old_projs, j as int + 1)) by {
                        assert(old_projs[j as int].overlaps(o_orig));
                    }
                    assert(events_for(o_orig, old_projs.subrange(0, j as int + 1)) =~= events_for(
                        o_orig,
                        old_projs.subrange(0, j as int),
                    ).push(Destroyed { x: o_orig.x, y: o_orig.y, size: o_orig.size }));
                    assert(destroyed@ =~= destroyed_events(old_obs.subrange(0, i as int), old_projs)
                        + events_for(o_orig, old_projs.subrange(0, j as int + 1)));
                }
            } else {
                proof {
                    assert(events_for(o_orig, old_projs.subrange(0, j as int + 1)) =~= events_for(
                        o_orig,
                        old_projs.subrange(0, j as int),
                    ));
                    assert(obstacle_hit_prefix(o_orig, old_projs, j as int + 1)
                        == obstacle_hit_prefix(o_orig, old_projs, j as int)) by {
                        if obstacle_hit_prefix(o_orig, old_projs, j as int + 1) {
                            let w = choose|w: int|
                                0 <= w < j as int + 1 && (#[trigger] old_projs[w]).overlaps(o_orig);
                            assert(w < j as int);
                        }
                    }
                }
            }
            proof {
                assert forall|k: int|
                    0 <= k < n_b implies projectiles@[k] == (Entity {
                        collided: old_projs[k].collided || bullet_hit_prefix(
                            #[trigger] old_projs[k],
                            old_obs,
                            i as int,
                        ) || (k < j as int + 1 && old_projs[k].overlaps(o_orig)),
                        ..old_projs[k]
                    }) by {
                    if k != j as int {
                        assert(k < j as int + 1 <==> k < j as int || k == j as int);
                    }
                }
            }
            j = j + 1;
        }
        obstacles[i] = o;
        proof {
            assert(old_projs.subrange(0, n_b as int) =~= old_projs);
            assert(obstacle_hit_prefix(o_orig, old_projs, n_b as int) == obstacle_hit(
                o_orig,
                old_projs,
            ));
            assert(old_obs.subrange(0, i as int + 1).drop_last() =~= old_obs.subrange(0, i as int));
            assert(old_obs.subrange(0, i as int + 1).last() == o_orig);
            assert(destroyed@ =~= destroyed_events(old_obs.subrange(0, i as int + 1), old_projs));
            assert forall|k: int|
                0 <= k < n_b implies projectiles@[k] == (Entity {
                    collided: old_projs[k].collided || bullet_hit_prefix(
                        #[trigger] old_projs[k],
                        old_obs,
                        i as int + 1,
                    ),
                    ..old_projs[k]
                }) by {
                assert(bullet_hit_prefix(old_projs[k], old_obs, i as int + 1) == (bullet_hit_prefix(
                    old_projs[k],
                    old_obs,
                    i as int,
                ) || old_projs[k].overlaps(old_obs[i as int]))) by {
                    if bullet_hit_prefix(old_projs[k], old_obs, i as int + 1) {
                        let w = choose|w: int|
                            0 <= w < i as int + 1 && old_projs[k].overlaps(#[trigger] old_obs[w]);
                        assert(w < i as int || w == i as int);
                    }
                    if bullet_hit_prefix(old_projs[k], old_obs, i as int) {
                        let w = choose|w: int|
                            0 <= w < i as int && old_projs[k].overlaps(#[trigger] old_obs[w]);
                        assert(0 <= w < i as int + 1 && old_projs[k].overlaps(old_obs[w]));
                    }
                    if old_projs[k].overlaps(old_obs[i as int]) {
                        let wi = i as int;
                        assert(0 <= wi && wi < wi + 1 && old_projs[k].overlaps(old_obs[wi]));
                    }
                }
            }
        }
        i = i + 1;
    }
    proof {
        assert(old_obs.subrange(0, n_obs as int) =~= old_obs);
        assert forall|k: int|
            0 <= k < n_b implies projectiles@[k] == (Entity {
                collided: old_projs[k].collided || bullet_hit(#[trigger] old_projs[k], old_obs),
                ..old_projs[k]
            }) by {
            assert(bullet_hit_prefix(old_projs[k], old_obs, n_obs as int) == bullet_hit(
                old_projs[k],
                old_obs,
            ));
        }
        assert forall|k: int| 0 <= k < n_obs implies (#[trigger] obstacles@[k]).valid() by {
            assert(obstacles@[k] == (Entity {
                collided: old_obs[k].collided || obstacle_hit(old_obs[k], old_projs),
                ..old_obs[k]
            }));
            assert(old_obs[k].valid());
        }
        assert forall|k: int| 0 <= k < n_b implies (#[trigger] projectiles@[k]).valid() by {
            assert(old_projs[k].valid());
        }
    }
    destroyed
}

} // verus!
