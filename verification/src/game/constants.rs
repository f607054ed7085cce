//! Arena size and timing.

use vstd::prelude::*;

use super::components::Position;

verus! {

/// Number of cells of the arena along the x axis.
pub const ARENA_WIDTH: i32 = 20;

/// Number of cells of the arena along the y axis.
pub const ARENA_HEIGHT: i32 = 20;

/// Time between two movement steps of the snake, in nanoseconds (150 ms).
pub const MOVE_INTERVAL: u64 = 150_000_000;

/// The x coordinate of the snake's head when a game starts.
pub const INITIAL_SNAKE_X: i32 = 3;

/// The y coordinate of the snake's head when a game starts.
pub const INITIAL_SNAKE_Y: i32 = 3;

/// The cell of the snake's head when a game starts.
pub open spec fn initial_position() -> Position {
    Position { x: INITIAL_SNAKE_X, y: INITIAL_SNAKE_Y }
}

/// The cell of the snake's head when a game starts.
#[verifier::when_used_as_spec(initial_position)]
pub fn initial_snake_position() -> (p: Position)
    ensures
        p == initial_position(),
        p.in_arena(),
{
    Position { x: INITIAL_SNAKE_X, y: INITIAL_SNAKE_Y }
}

} // verus!
