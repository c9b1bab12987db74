//! Core logic of a grid-based snake game: wrapped grid arithmetic, a snake
//! state machine with buffered direction changes and collision detection,
//! a wall generator with random gaps, food placement, and a fixed-timestep
//! round controller. Rendering and input plumbing are left to the caller.

pub mod consts;
pub mod elements;
pub mod game;
pub mod grid;
mod rng;
pub mod snake;
