//! The simulation context: one object that owns the whole game state and
//! advances it one frame, or one phase event, at a time.
//!
//! A frame in play runs in a fixed order: held input shifts the ship;
//! fire input (rate-limited) adds a projectile at the ship's pre-clamp
//! position; pause input is noted; the ship is clamped to the screen; the
//! spawner's trial may add an obstacle; everything moves by the frame time;
//! what left the screen or was consumed is pruned; the fatal pass checks the
//! ship against the surviving obstacles; the destructive pass scores
//! projectile/obstacle overlaps. A fatal collision ends the frame in
//! `GameOver` even when pause was pressed the same frame, and owes the high
//! score a write exactly when the score equals it at that instant.

use vstd::prelude::*;
use crate::collision::{
    bullet_hit, destroyed_events, destructive_pass, fatal_pass, obstacle_hit, sat_add_u32,
    ship_hit, total_size, Destroyed,
};
use crate::geom::{clamped, Entity, COORD_SCALE};
use crate::phase::{phase_after, transition, GamePhase, PhaseEvent};
use crate::spawn::{maybe_spawn, spawned_obstacle_ok, GameRng};
use crate::store::{
    advanced_obstacle, advanced_projectile, pruned_obstacles, pruned_projectiles, reset_outcome,
    shifted, EntityStore, MAX_SCREEN_DIM, MIN_SCREEN_DIM, SHIP_SIZE, SHIP_SPEED,
};

verus! {

/// Milliseconds of game time that must have passed, strictly, since the
/// last shot before fire input fires again.
pub const FIRE_COOLDOWN_MS: u64 = 200;

/// Edge length of a projectile's bounding box, in pixels.
pub const PROJECTILE_SIZE: u32 = 32;

/// How far above the ship's center a new projectile starts, in thousandths
/// of a pixel (24 pixels).
pub const PROJECTILE_OFFSET: i64 = 24_000;

/// The held and pressed inputs sampled for one frame in play.
#[derive(Clone, Copy, PartialEq, Eq, Structural, Debug)]
pub struct FrameInput {
    pub left: bool,
    pub right: bool,
    pub up: bool,
    pub down: bool,
    pub fire: bool,
    pub pause: bool,
}

/// What one frame in play did, for the caller's effects: the shot fired (for
/// its sound), the obstacle spawned, the scoring hits (for particles and
/// sound), whether the session ended, and the high score owed to storage.
pub struct FrameEvents {
    pub shot_fired: bool,
    pub spawned: Option<Entity>,
    pub destroyed: Vec<Destroyed>,
    pub game_over: bool,
    pub save_high_score: Option<u32>,
}

/// `s` with the optional extra entity appended.
pub open spec fn appended(s: Seq<Entity>, extra: Option<Entity>) -> Seq<Entity> {
    match extra {
        Some(e) => s.push(e),
        None => s,
    }
}

/// Every obstacle after one frame of falling.
pub open spec fn advanced_obstacles_seq(s: Seq<Entity>, dt: int) -> Seq<Entity> {
    s.map_values(|e: Entity| advanced_obstacle(e, dt))
}

/// Every projectile after one frame of rising.
pub open spec fn advanced_projectiles_seq(s: Seq<Entity>, dt: int) -> Seq<Entity> {
    s.map_values(|e: Entity| advanced_projectile(e, dt))
}

/// Obstacles after the destructive pass: each is marked collided exactly
/// when some projectile's box overlaps it.
pub open spec fn marked_obstacles(obs: Seq<Entity>, projs: Seq<Entity>) -> Seq<Entity> {
    obs.map_values(|o: Entity| Entity { collided: o.collided || obstacle_hit(o, projs), ..o })
}

/// Projectiles after the destructive pass: each is marked collided exactly
/// when its box overlaps some obstacle.
pub open spec fn marked_projectiles(projs: Seq<Entity>, obs: Seq<Entity>) -> Seq<Entity> {
    projs.map_values(|b: Entity| Entity { collided: b.collided || bullet_hit(b, obs), ..b })
}

/// Fire input fires only when strictly more than the cooldown has passed
/// since the last shot.
pub open spec fn can_fire(now_ms: int, last_shot_ms: int) -> bool {
    now_ms > last_shot_ms + FIRE_COOLDOWN_MS
}

/// The whole game state between two frames.
pub struct GameSim {
    /// The ship and the dynamic entity collections.
    pub store: EntityStore,
    /// Which phase's logic runs next frame.
    pub phase: GamePhase,
    /// The running session's score.
    pub score: u32,
    /// The best score seen by this process, kept current in memory.
    pub high_score: u32,
    /// The high score as it stood when the running session began, for the
    /// end-of-run "new record" comparison.
    pub session_start_high: u32,
    /// Game time of the last shot, in milliseconds.
    pub last_shot_ms: u64,
}

impl GameSim {
    /// Bounds and invariants every frame preserves.
    pub open spec fn wf(self) -> bool {
        &&& self.store.wf()
        &&& self.store.ship_in_bounds()
        &&& self.store.ship.size == SHIP_SIZE
        &&& self.store.ship.speed == SHIP_SPEED
        &&& self.score <= self.high_score
        &&& self.session_start_high <= self.high_score
    }

    /// The ship's horizontal center after this frame's held input, before
    /// clamping.
    pub open spec fn shifted_ship_x(self, input: FrameInput, dt: int) -> int {
        shifted(self.store.ship.x as int, input.left, input.right, self.store.ship.speed as int, dt)
    }

    /// The ship's vertical center after this frame's held input, before
    /// clamping.
    pub open spec fn shifted_ship_y(self, input: FrameInput, dt: int) -> int {
        shifted(self.store.ship.y as int, input.up, input.down, self.store.ship.speed as int, dt)
    }

    /// The projectile a shot this frame creates: at the ship's pre-clamp
    /// position, offset upward, twice the ship's speed, not collided.
    pub open spec fn fired_projectile(self, input: FrameInput, dt: int) -> Entity {
        Entity {
            x: self.shifted_ship_x(input, dt) as i64,
            y: (self.shifted_ship_y(input, dt) - PROJECTILE_OFFSET) as i64,
            size: PROJECTILE_SIZE,
            speed: (2 * self.store.ship.speed as int) as u32,
            collided: false,
        }
    }

    /// A fresh game: main menu, a centered ship on an empty screen, score
    /// zero, and the loaded high score.
    pub fn new(screen_w: u32, screen_h: u32, loaded_high_score: u32) -> (s: GameSim)
        requires
            MIN_SCREEN_DIM <= screen_w <= MAX_SCREEN_DIM,
            MIN_SCREEN_DIM <= screen_h <= MAX_SCREEN_DIM,
        ensures
            s.wf(),
            s.phase == GamePhase::MainMenu,
            s.score == 0,
            s.high_score == loaded_high_score,
            s.session_start_high == loaded_high_score,
            s.last_shot_ms == 0,
            s.store.screen_w == screen_w,
            s.store.screen_h == screen_h,
            s.store.obstacles@ == Seq::<Entity>::empty(),
            s.store.projectiles@ == Seq::<Entity>::empty(),
            s.store.ship.x == s.store.center_x(),
            s.store.ship.y == s.store.center_y(),
    {
        GameSim {
            store: EntityStore::new(screen_w, screen_h),
            phase: GamePhase::MainMenu,
            score: 0,
            high_score: loaded_high_score,
            session_start_high: loaded_high_score,
            last_shot_ms: 0,
        }
    }

    /// Adopts the current window size, pulling the ship back onto the new
    /// screen if it shrank; everything else is untouched.
    pub fn set_screen_size(&mut self, screen_w: u32, screen_h: u32)
        requires
            old(self).wf(),
            MIN_SCREEN_DIM <= screen_w <= MAX_SCREEN_DIM,
            MIN_SCREEN_DIM <= screen_h <= MAX_SCREEN_DIM,
        ensures
            final(self).wf(),
            final(self).store.screen_w == screen_w,
            final(self).store.screen_h == screen_h,
            final(self).store.ship.x == clamped(
                old(self).store.ship.x as int,
                0,
                screen_w as int * COORD_SCALE as int,
            ),
            final(self).store.ship.y == clamped(
                old(self).store.ship.y as int,
                0,
                screen_h as int * COORD_SCALE as int,
            ),
            final(self).store.ship.size == old(self).store.ship.size,
            final(self).store.ship.speed == old(self).store.ship.speed,
            final(self).store.ship.collided == old(self).store.ship.collided,
            final(self).store.obstacles == old(self).store.obstacles,
            final(self).store.projectiles == old(self).store.projectiles,
            final(self).phase == old(self).phase,
            final(self).score == old(self).score,
            final(self).high_score == old(self).high_score,
            final(self).session_start_high == old(self).session_start_high,
            final(self).last_shot_ms == old(self).last_shot_ms,
    {
        self.store.screen_w = screen_w;
        self.store.screen_h = screen_h;
        self.store.clamp_ship();
    }

    /// Applies one phase event outside the frame step: the phase moves by
    /// the transition table; starting a session from the menu resets the
    /// entities, the score and the shot timer and remembers the pre-session
    /// high score; a fatal collision reported while playing yields the high
    /// score to persist exactly when the score equals it. The high score in
    /// memory never changes here, and never decreases anywhere.
    pub fn apply_event(&mut self, event: PhaseEvent, now_ms: u64) -> (save: Option<u32>)
        requires
            old(self).wf(),
        ensures
            final(self).wf(),
            final(self).phase == phase_after(old(self).phase, event),
            final(self).high_score == old(self).high_score,
            (old(self).phase == GamePhase::MainMenu && event == PhaseEvent::StartPressed) ==> {
                &&& final(self).score == 0
                &&& final(self).session_start_high == old(self).high_score
                &&& final(self).last_shot_ms == now_ms
                &&& reset_outcome(old(self).store, final(self).store)
            },
            !(old(self).phase == GamePhase::MainMenu && event == PhaseEvent::StartPressed) ==> {
                &&& final(self).score == old(self).score
                &&& final(self).session_start_high == old(self).session_start_high
                &&& final(self).last_shot_ms == old(self).last_shot_ms
                &&& final(self).store == old(self).store
            },
            save == (if old(self).phase == GamePhase::Playing && event == PhaseEvent::FatalCollision
                && old(self).score == old(self).high_score {
                Some(old(self).high_score)
            } else {
                Option::<u32>::None
            }),
    {
        let new_phase = transition(self.phase, event);
        let mut save: Option<u32> = None;
        if self.phase == GamePhase::MainMenu && event == PhaseEvent::StartPressed {
            self.store.reset();
            self.score = 0;
            self.session_start_high = self.high_score;
            self.last_shot_ms = now_ms;
        }
        if self.phase == GamePhase::Playing && event == PhaseEvent::FatalCollision && self.score
            == self.high_score {
            save = Some(self.high_score);
        }
        self.phase = new_phase;
        save
    }

    /// One frame in play. See the module description for the order; the
    /// contract pins down the ship's motion and clamping, the shot, the
    /// spawn, the survivors, the marks, the score, the phase and the owed
    /// high-score write.
    pub fn step(&mut self, input: FrameInput, dt_ms: u32, now_ms: u64, rng: &mut GameRng) -> (events:
        FrameEvents)
        requires
            old(self).wf(),
            old(self).phase == GamePhase::Playing,
        ensures
            final(self).wf(),
            final(self).store.screen_w == old(self).store.screen_w,
            final(self).store.screen_h == old(self).store.screen_h,
            final(self).store.ship.x == clamped(
                old(self).shifted_ship_x(input, dt_ms as int),
                0,
                old(self).store.screen_w as int * COORD_SCALE as int,
            ),
            final(self).store.ship.y == clamped(
                old(self).shifted_ship_y(input, dt_ms as int),
                0,
                old(self).store.screen_h as int * COORD_SCALE as int,
            ),
            final(self).store.ship.size == old(self).store.ship.size,
            final(self).store.ship.speed == old(self).store.ship.speed,
            final(self).store.ship.collided == old(self).store.ship.collided,
            final(self).store.ship_in_bounds(),
            events.shot_fired == (input.fire && can_fire(now_ms as int, old(self).last_shot_ms as int)),
            final(self).last_shot_ms == (if events.shot_fired {
                now_ms
            } else {
                old(self).last_shot_ms
            }),
            (match events.spawned {
                Some(o) => spawned_obstacle_ok(o, old(self).store.screen_w as int),
                None => true,
            }),
            ({
                let obs1 = pruned_obstacles(
                    advanced_obstacles_seq(
                        appended(old(self).store.obstacles@, events.spawned),
                        dt_ms as int,
                    ),
                    old(self).store.screen_h as int,
                );
                let projs1 = pruned_projectiles(
                    advanced_projectiles_seq(
                        appended(
                            old(self).store.projectiles@,
                            if events.shot_fired {
                                Some(old(self).fired_projectile(input, dt_ms as int))
                            } else {
                                None
                            },
                        ),
                        dt_ms as int,
                    ),
                );
                &&& final(self).store.obstacles@ == marked_obstacles(obs1, projs1)
                &&& final(self).store.projectiles@ == marked_projectiles(projs1, obs1)
                &&& events.destroyed@ == destroyed_events(obs1, projs1)
                &&& events.game_over == ship_hit(final(self).store.ship, obs1)
            }),
            final(self).score == sat_add_u32(old(self).score as int, total_size(events.destroyed@)),
            final(self).score >= old(self).score,
            final(self).high_score >= old(self).high_score,
            final(self).score <= final(self).high_score,
            final(self).high_score == (if final(self).score > old(self).high_score {
                final(self).score as int
            } else {
                old(self).high_score as int
            }),
            final(self).session_start_high == old(self).session_start_high,
            final(self).phase == (if events.game_over {
                GamePhase::GameOver
            } else if input.pause {
                GamePhase::Paused
            } else {
                GamePhase::Playing
            }),
            events.save_high_score == (if events.game_over && old(self).score == old(
                self,
            ).high_score {
                Some(old(self).high_score)
            } else {
                Option::<u32>::None
            }),
    {
        let ghost pre = *old(self);
        proof {
            let sp = pre.store.ship.speed as int;
            let d = dt_ms as int;
            assert(sp == 200);
            assert(sp * d == 200 * d);
            assert(0 <= 200 * d <= 858_993_459_000int);
        }
        self.store.shift_ship(input.left, input.right, input.up, input.down, dt_ms);
        let mut shot_fired = false;
        if input.fire && now_ms > self.last_shot_ms && now_ms - self.last_shot_ms > FIRE_COOLDOWN_MS
            {
            let p = Entity {
                x: self.store.ship.x,
                y: self.store.ship.y - PROJECTILE_OFFSET,
                size: PROJECTILE_SIZE,
                speed: 2 * self.store.ship.speed,
                collided: false,
            };
            proof {
                assert(p == pre.fired_projectile(input, dt_ms as int));
            }
            self.store.add_projectile(p);
            self.last_shot_ms = now_ms;
            shot_fired = true;
        }
        let ghost shot_opt: Option<Entity> = if shot_fired {
            Some(pre.fired_projectile(input, dt_ms as int))
        } else {
            None
        };
        proof {
            assert(self.store.projectiles@ == appended(pre.store.projectiles@, shot_opt));
        }
        self.store.clamp_ship();
        let spawned = maybe_spawn(rng, self.store.screen_w);
        if let Some(o) = spawned {
            self.store.add_obstacle(o);
        }
        proof {
            assert(self.store.obstacles@ == appended(pre.store.obstacles@, spawned));
        }
        let ghost obs0 = self.store.obstacles@;
        let ghost projs0 = self.store.projectiles@;
        self.store.advance(dt_ms);
        proof {
            assert(self.store.obstacles@ =~= advanced_obstacles_seq(obs0, dt_ms as int));
            assert(self.store.projectiles@ =~= advanced_projectiles_seq(projs0, dt_ms as int));
        }
        self.store.prune();
        let ghost obs1 = self.store.obstacles@;
        let ghost projs1 = self.store.projectiles@;
        let fatal = fatal_pass(&self.store.ship, &self.store.obstacles);
        let mut save: Option<u32> = None;
        if input.pause {
            self.phase = transition(self.phase, PhaseEvent::PausePressed);
        }
        if fatal {
            if self.score == self.high_score {
                save = Some(self.high_score);
            }
            self.phase = GamePhase::GameOver;
        }
        let destroyed = destructive_pass(
            &mut self.store.obstacles,
            &mut self.store.projectiles,
            &mut self.score,
            &mut self.high_score,
        );
        proof {
            assert(self.store.obstacles@ =~= marked_obstacles(obs1, projs1));
            assert(self.store.projectiles@ =~= marked_projectiles(projs1, obs1));
        }
        FrameEvents {
            shot_fired,
            spawned,
            destroyed,
            game_over: fatal,
            save_high_score: save,
        }
    }
}

} // verus!
