//! Fixed parameters of the board and of the simulation.

use vstd::prelude::*;

verus! {

/// Cells along each axis of the square board.
pub const CELL_COUNT: i32 = 20;

/// Milliseconds that must pass between two movement steps.
pub const SNAKE_MOVEMENT_INTERVAL: u64 = 200;

/// Points awarded for every piece of food eaten.
pub const FOOD_SCORE: u32 = 10;

/// Length of the snake when a round starts.
pub const INITIAL_LENGTH: usize = 3;

/// Column of the head when a round starts; the body trails to the left.
pub const INITIAL_HEAD_X: i32 = 6;

/// Row on which the snake lies when a round starts.
pub const INITIAL_ROW: i32 = 9;

} // verus!
