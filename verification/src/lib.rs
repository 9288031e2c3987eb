//! Core of a single-player arcade shooter: a ship dodges and destroys falling
//! obstacles while score and a persisted high score accumulate.
//!
//! This crate holds the verified simulation engine: the entity model and its
//! per-frame kinematics ([`store`]), the probabilistic obstacle spawner
//! ([`spawn`]), collision detection and scoring ([`collision`]), the
//! game-phase state machine ([`phase`]), the decimal codec for the persisted
//! high score ([`highscore`]), and the simulation context that drives one
//! frame at a time ([`sim`]).
//!
//! Rendering, audio, input polling and file access live outside this crate;
//! they exchange plain values (screen sizes in pixels, frame times in
//! milliseconds, byte buffers) with the functions here. Geometry is modelled
//! in whole thousandths of a pixel so that every movement, clamp and overlap
//! test is exact integer arithmetic.

pub mod geom;
pub mod store;
pub mod spawn;
pub mod collision;
pub mod phase;
pub mod highscore;
pub mod sim;
