//! Whole frames and phase events on the simulation context.

use shooter_core::geom::{Entity, COORD_SCALE};
use shooter_core::phase::{GamePhase, PhaseEvent};
use shooter_core::sim::{FrameInput, GameSim};
use shooter_core::spawn::GameRng;

fn no_input() -> FrameInput {
    FrameInput {
        left: false,
        right: false,
        up: false,
        down: false,
        fire: false,
        pause: false,
    }
}

fn playing_sim() -> GameSim {
    let mut sim = GameSim::new(800, 600, 0);
    sim.apply_event(PhaseEvent::StartPressed, 1_000);
    assert_eq!(sim.phase, GamePhase::Playing);
    sim
}

#[test]
fn starting_a_session_resets_score_and_entities() {
    let mut sim = GameSim::new(800, 600, 120);
    sim.score = 0;
    let save = sim.apply_event(PhaseEvent::StartPressed, 5_000);
    assert_eq!(save, None);
    assert_eq!(sim.phase, GamePhase::Playing);
    assert_eq!(sim.score, 0);
    assert_eq!(sim.high_score, 120);
    assert_eq!(sim.session_start_high, 120);
    assert_eq!(sim.last_shot_ms, 5_000);
    assert_eq!(sim.store.obstacles.len(), 0);
    assert_eq!(sim.store.projectiles.len(), 0);
    assert_eq!(sim.store.ship.x, 400 * COORD_SCALE);
    assert_eq!(sim.store.ship.y, 300 * COORD_SCALE);
}

#[test]
fn pause_resume_and_acknowledge_move_phases() {
    let mut sim = playing_sim();
    sim.apply_event(PhaseEvent::PausePressed, 2_000);
    assert_eq!(sim.phase, GamePhase::Paused);
    sim.apply_event(PhaseEvent::ResumePressed, 3_000);
    assert_eq!(sim.phase, GamePhase::Playing);
    sim.apply_event(PhaseEvent::FatalCollision, 4_000);
    assert_eq!(sim.phase, GamePhase::GameOver);
    sim.apply_event(PhaseEvent::Acknowledged, 5_000);
    assert_eq!(sim.phase, GamePhase::MainMenu);
}

#[test]
fn held_fire_within_cooldown_creates_no_projectile() {
    // The last shot was at 1000 ms and only 150 ms have passed.
    let mut sim = playing_sim();
    sim.last_shot_ms = 1_000;
    let mut rng = GameRng::new();
    let input = FrameInput { fire: true, ..no_input() };
    let events = sim.step(input, 16, 1_150, &mut rng);
    assert!(!events.shot_fired);
    assert_eq!(sim.store.projectiles.len(), 0);
    assert_eq!(sim.last_shot_ms, 1_000);
    // Exactly 200 ms is still within the cooldown: strictly more is needed.
    let events = sim.step(input, 16, 1_200, &mut rng);
    assert!(!events.shot_fired);
    assert_eq!(sim.store.projectiles.len(), 0);
}

#[test]
fn fire_after_cooldown_spawns_a_projectile_above_the_ship() {
    let mut sim = playing_sim();
    sim.last_shot_ms = 1_000;
    let mut rng = GameRng::new();
    let input = FrameInput { fire: true, ..no_input() };
    // A zero-length frame keeps the new projectile where it was fired.
    let events = sim.step(input, 0, 1_201, &mut rng);
    assert!(events.shot_fired);
    assert_eq!(sim.last_shot_ms, 1_201);
    assert_eq!(sim.store.projectiles.len(), 1);
    let p = sim.store.projectiles[0];
    assert_eq!(p.x, 400 * COORD_SCALE);
    assert_eq!(p.y, 300 * COORD_SCALE - 24 * COORD_SCALE);
    assert_eq!(p.size, 32);
    assert_eq!(p.speed, 400);
    assert!(!p.collided);
}

#[test]
fn fatal_overlap_ends_the_session_and_persists_a_new_record() {
    // Ship at (160, 300); an obstacle overlaps the ship's box; the score
    // equals the high score, so the record is owed to storage.
    let mut sim = playing_sim();
    sim.store.ship.x = 160 * COORD_SCALE;
    sim.store.ship.y = 300 * COORD_SCALE;
    sim.store.obstacles.push(Entity {
        x: 165 * COORD_SCALE,
        y: 305 * COORD_SCALE,
        size: 32,
        speed: 100,
        collided: false,
    });
    sim.score = 50;
    sim.high_score = 50;
    let mut rng = GameRng::new();
    let events = sim.step(no_input(), 0, 2_000, &mut rng);
    assert!(events.game_over);
    assert_eq!(events.save_high_score, Some(50));
    assert_eq!(sim.phase, GamePhase::GameOver);
}

#[test]
fn fatal_overlap_below_the_record_persists_nothing() {
    let mut sim = playing_sim();
    sim.store.ship.x = 160 * COORD_SCALE;
    sim.store.ship.y = 300 * COORD_SCALE;
    sim.store.obstacles.push(Entity {
        x: 165 * COORD_SCALE,
        y: 305 * COORD_SCALE,
        size: 32,
        speed: 100,
        collided: false,
    });
    sim.score = 30;
    sim.high_score = 50;
    let mut rng = GameRng::new();
    let events = sim.step(no_input(), 0, 2_000, &mut rng);
    assert!(events.game_over);
    assert_eq!(events.save_high_score, None);
    assert_eq!(sim.phase, GamePhase::GameOver);
}

#[test]
fn pause_input_pauses_at_frame_end() {
    let mut sim = playing_sim();
    let mut rng = GameRng::new();
    let input = FrameInput { pause: true, ..no_input() };
    let events = sim.step(input, 16, 2_000, &mut rng);
    assert!(!events.game_over);
    assert_eq!(sim.phase, GamePhase::Paused);
}

#[test]
fn a_frame_scores_an_overlapping_pair_and_keeps_the_record_current() {
    let mut sim = playing_sim();
    // Place an obstacle and a projectile so that they still overlap after
    // this frame's movement (a zero-length frame moves nothing).
    sim.store.obstacles.push(Entity {
        x: 100 * COORD_SCALE,
        y: 100 * COORD_SCALE,
        size: 32,
        speed: 100,
        collided: false,
    });
    sim.store.projectiles.push(Entity {
        x: 100 * COORD_SCALE,
        y: 100 * COORD_SCALE,
        size: 32,
        speed: 400,
        collided: false,
    });
    let mut rng = GameRng::new();
    let events = sim.step(no_input(), 0, 2_000, &mut rng);
    assert!(!events.game_over);
    assert_eq!(events.destroyed.len(), 1);
    assert_eq!(events.destroyed[0].size, 32);
    assert_eq!(sim.score, 32);
    assert_eq!(sim.high_score, 32);
    // The pair is marked now and gone after the next frame's prune.
    assert!(sim.store.obstacles[0].collided);
    assert!(sim.store.projectiles[0].collided);
    let events = sim.step(no_input(), 0, 2_000, &mut rng);
    assert!(!events.game_over);
    assert_eq!(sim.store.projectiles.len(), 0);
    // Any obstacle still present was spawned fresh above the screen this
    // frame; the scored pair itself is gone.
    assert!(sim.store.obstacles.iter().all(|o| o.y < 0 && !o.collided));
}

#[test]
fn score_and_high_score_never_decrease_over_many_frames() {
    let mut sim = playing_sim();
    let mut rng = GameRng::new();
    macroquad::rand::srand(7);
    let mut prev_score: u32 = sim.score;
    let mut prev_high: u32 = sim.high_score;
    let input = FrameInput { fire: true, ..no_input() };
    let mut now: u64 = 2_000;
    for _ in 0..600 {
        now += 16;
        let events = sim.step(input, 16, now, &mut rng);
        assert!(sim.score >= prev_score);
        assert!(sim.high_score >= prev_high);
        assert!(sim.score <= sim.high_score);
        prev_score = sim.score;
        prev_high = sim.high_score;
        // The ship stays on the screen every frame.
        assert!(sim.store.ship.x >= 0 && sim.store.ship.x <= 800 * COORD_SCALE);
        assert!(sim.store.ship.y >= 0 && sim.store.ship.y <= 600 * COORD_SCALE);
        if events.game_over {
            break;
        }
    }
}
