//! A verified core for a two-player paddle-and-ball game.
//!
//! Positions and velocities are integer-valued (game units), time deltas are
//! measured in milliseconds. The per-frame simulation step — paddle movement,
//! ball movement, wall and paddle bounces, goal detection and scoring — lives
//! here with full functional contracts; rendering and input polling are left
//! to the embedding program.

pub mod geometry;
pub mod rng;
pub mod state;
pub mod laws;
