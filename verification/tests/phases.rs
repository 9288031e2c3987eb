//! The phase machine: the five valid transitions, and no-ops elsewhere.

use shooter_core::phase::{transition, GamePhase, PhaseEvent};

#[test]
fn valid_transitions() {
    assert_eq!(
        transition(GamePhase::MainMenu, PhaseEvent::StartPressed),
        GamePhase::Playing
    );
    assert_eq!(
        transition(GamePhase::Playing, PhaseEvent::PausePressed),
        GamePhase::Paused
    );
    assert_eq!(
        transition(GamePhase::Paused, PhaseEvent::ResumePressed),
        GamePhase::Playing
    );
    assert_eq!(
        transition(GamePhase::Playing, PhaseEvent::FatalCollision),
        GamePhase::GameOver
    );
    assert_eq!(
        transition(GamePhase::GameOver, PhaseEvent::Acknowledged),
        GamePhase::MainMenu
    );
}

#[test]
fn invalid_inputs_are_no_ops() {
    let phases = [
        GamePhase::MainMenu,
        GamePhase::Playing,
        GamePhase::Paused,
        GamePhase::GameOver,
    ];
    let events = [
        PhaseEvent::StartPressed,
        PhaseEvent::PausePressed,
        PhaseEvent::ResumePressed,
        PhaseEvent::FatalCollision,
        PhaseEvent::Acknowledged,
    ];
    for p in phases {
        for e in events {
            let to = transition(p, e);
            let valid = matches!(
                (p, e),
                (GamePhase::MainMenu, PhaseEvent::StartPressed)
                    | (GamePhase::Playing, PhaseEvent::PausePressed)
                    | (GamePhase::Paused, PhaseEvent::ResumePressed)
                    | (GamePhase::Playing, PhaseEvent::FatalCollision)
                    | (GamePhase::GameOver, PhaseEvent::Acknowledged)
            );
            if !valid {
                assert_eq!(to, p);
            } else {
                assert_ne!(to, p);
            }
        }
    }
}
