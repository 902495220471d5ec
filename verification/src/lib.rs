//! Simulation core of a tile-based climbing game.
//!
//! The player climbs a sparse tile grid one discrete step at a time, gated by
//! a turn counter, while gravity pulls them down, obstacles fight back, and
//! latent ice tiles turn into falling hazards.  Everything here works on plain
//! grid coordinates and integer stats; rendering, audio and input sampling
//! live outside the library and hand in plain values.

pub mod grid;
pub mod tiles;
pub mod state;
pub mod entities;
pub mod movement;
pub mod combat;
pub mod hazard;
pub mod session;
