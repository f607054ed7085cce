//! Shared components, resources, events and constants of the game.

pub mod components;
pub mod constants;
pub mod events;
pub mod grid;
pub mod resources;

pub use components::{
    Direction, Food, KeyState, Position, PreviousPosition, SnakeHead, SnakeSegment,
};
pub use constants::{
    initial_snake_position, ARENA_HEIGHT, ARENA_WIDTH, INITIAL_SNAKE_X, INITIAL_SNAKE_Y,
    MOVE_INTERVAL,
};
pub use events::{FoodEatenEvent, GrowthEvent};
pub use grid::{wrap, wrap_wide};
pub use resources::{
    update_move_timer, GamePhase, GameState, InputBuffer, MoveTimer, INPUT_BUFFER_CAPACITY,
};
