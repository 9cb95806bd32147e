//! A verified model of a small "flappy bird" style arcade game.
//!
//! The simulation state (bird, pipes, score, game-over flag, spawn timer)
//! lives in plain integer fixed-point values: positions and sizes are in
//! milli-units (one thousandth of a world unit), velocities in milli-units
//! per second, and time in milliseconds. Each per-frame system is an
//! ordinary function over that state with a full contract; the host engine
//! (entity storage, clock, input polling, rendering) stays outside the
//! library and only feeds plain values in.

pub mod game;
pub mod plugin;
mod rng;
pub mod systems;
pub mod text;

pub use game::GameState;
