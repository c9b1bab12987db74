use vstd::prelude::*;

verus! {

/// Number of grid columns in the standard playfield.
pub const GRID_WIDTH: i16 = 30;

/// Number of grid rows in the standard playfield.
pub const GRID_HEIGHT: i16 = 20;

/// Milliseconds between two logic ticks: ten updates per second.
pub const MILLIS_PER_UPDATE: u64 = 100;

} // verus!
