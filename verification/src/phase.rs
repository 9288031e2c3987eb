//! The game-phase state machine.
//!
//! Four phases gate which logic runs in a frame; the transition function is
//! total, and an event that is not meaningful in the current phase leaves the
//! phase unchanged. Quitting the process is not a phase: the caller exits
//! instead of feeding an event.

use vstd::prelude::*;

verus! {

/// The phase the game is in between two frames.
#[derive(Clone, Copy, PartialEq, Eq, Structural, Debug)]
pub enum GamePhase {
    /// The start screen; the initial phase.
    MainMenu,
    /// The simulation runs and input steers the ship.
    Playing,
    /// The simulation is frozen until resumed.
    Paused,
    /// The session ended in a fatal collision.
    GameOver,
}

/// What happened this frame, as far as the phase machine is concerned.
#[derive(Clone, Copy, PartialEq, Eq, Structural, Debug)]
pub enum PhaseEvent {
    /// The start input on the menu screen.
    StartPressed,
    /// The pause input while playing.
    PausePressed,
    /// The resume input while paused.
    ResumePressed,
    /// An obstacle's box overlapped the ship's box.
    FatalCollision,
    /// The acknowledgement input on the game-over screen.
    Acknowledged,
}

/// The complete transition table: the five valid transitions, and a no-op
/// for every other phase/event pair.
pub open spec fn phase_after(phase: GamePhase, event: PhaseEvent) -> GamePhase {
    match (phase, event) {
        (GamePhase::MainMenu, PhaseEvent::StartPressed) => GamePhase::Playing,
        (GamePhase::Playing, PhaseEvent::PausePressed) => GamePhase::Paused,
        (GamePhase::Paused, PhaseEvent::ResumePressed) => GamePhase::Playing,
        (GamePhase::Playing, PhaseEvent::FatalCollision) => GamePhase::GameOver,
        (GamePhase::GameOver, PhaseEvent::Acknowledged) => GamePhase::MainMenu,
        _ => phase,
    }
}

/// Applies one event to the phase machine.
pub fn transition(phase: GamePhase, event: PhaseEvent) -> (r: GamePhase)
    ensures
        r == phase_after(phase, event),
{
    match (phase, event) {
        (GamePhase::MainMenu, PhaseEvent::StartPressed) => GamePhase::Playing,
        (GamePhase::Playing, PhaseEvent::PausePressed) => GamePhase::Paused,
        (GamePhase::Paused, PhaseEvent::ResumePressed) => GamePhase::Playing,
        (GamePhase::Playing, PhaseEvent::FatalCollision) => GamePhase::GameOver,
        (GamePhase::GameOver, PhaseEvent::Acknowledged) => GamePhase::MainMenu,
        _ => phase,
    }
}

} // verus!
