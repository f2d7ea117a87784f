//! Core logic of a small turn-based RPG prototype: an ASCII-tile overworld,
//! a moving player avatar, random-encounter detection, and a simple
//! turn-based combat screen, all driven by a fade-gated two-state game mode.
//!
//! Geometry and time are modeled in fixed point: one world unit is `SCALE`
//! coordinate steps, and one time unit is `TIME_SCALE` clock ticks. A tile
//! is `TILE_SIZE` coordinate steps wide (a tenth of a world unit).
//!
//! Rendering, input polling and entity storage are the host engine's job;
//! this crate holds the tile/encounter model, movement and collision, the
//! combat resolution rules, and the state machine that gates every mode
//! switch behind a timed screen fade.

use vstd::prelude::*;

pub mod ascii;
pub mod combat;
pub mod fadeout;
pub mod game;
pub mod player;
pub mod tilemap;
pub mod timer;

verus! {

/// Fixed-point coordinate steps per world unit.
pub const SCALE: i64 = 1000;

/// Width of one tile in fixed-point coordinate steps (a tenth of a world unit).
pub const TILE_SIZE: i64 = 100;

/// Clock ticks per time unit; timer durations and deltas are counted in ticks.
pub const TIME_SCALE: u64 = 1000;

/// The two top-level game modes. The mode is never flipped directly: every
/// change goes through a `ScreenFade`, which applies the target state exactly
/// once, at the midpoint of the fade.
#[derive(Clone, Copy, Debug, PartialEq, Eq, Structural)]
pub enum GameState {
    Overworld,
    Combat,
}

} // verus!
