//! Core engine of a terminal snake game: a fixed-size grid of consumable and
//! hazardous items, an ordered-segment snake with wraparound movement, a
//! randomized item spawner throttled by elapsed time, a pause-aware game
//! clock, and the per-tick state machine that ties them together. Rendering
//! and raw keyboard decoding are left to the surrounding program; this crate
//! owns and verifies the game rules themselves.

pub mod clock;
pub mod grid;
pub mod input;
pub mod rng;
pub mod session;
pub mod snake;
