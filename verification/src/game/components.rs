//! The things on the arena: positions, directions, the snake's parts, food.

use vstd::prelude::*;

use super::constants::{ARENA_HEIGHT, ARENA_WIDTH};
use super::grid::{wrap, wrap_wide, wrapped};

verus! {

/// A cell of the arena. A position on the arena has `0 <= x < ARENA_WIDTH`
/// and `0 <= y < ARENA_HEIGHT`; two positions are the same cell exactly
/// when both coordinates are equal.
#[derive(Clone, Copy, PartialEq, Eq, Structural, Debug)]
pub struct Position {
    pub x: i32,
    pub y: i32,
}

impl Position {
    /// Whether this position is a cell of the arena.
    pub open spec fn in_arena(self) -> bool {
        0 <= self.x < ARENA_WIDTH && 0 <= self.y < ARENA_HEIGHT
    }

    /// This position with each coordinate wrapped into a grid of the given
    /// width and height.
    pub open spec fn wrapped(self, width: int, height: int) -> Position {
        Position {
            x: wrapped(self.x as int, width) as i32,
            y: wrapped(self.y as int, height) as i32,
        }
    }

    /// The cell that lies one step from this one in `direction`, on the
    /// toroidal arena: a step over an edge comes back in on the far side.
    pub open spec fn stepped(self, direction: Direction) -> Position {
        Position {
            x: wrapped(self.x + direction.dx(), ARENA_WIDTH as int) as i32,
            y: wrapped(self.y + direction.dy(), ARENA_HEIGHT as int) as i32,
        }
    }

    /// Check if this position collides with another position.
    pub fn collides_with(&self, other: &Position) -> (hit: bool)
        ensures
            hit == (*self == *other),
    {
        self.x == other.x && self.y == other.y
    }

    /// Wraps both coordinates, each on its own axis, into a grid of the given
    /// width and height.
    pub fn wrap(&self, width: i32, height: i32) -> (p: Position)
        requires
            width > 0,
            height > 0,
        ensures
            p == self.wrapped(width as int, height as int),
            0 <= p.x < width,
            0 <= p.y < height,
    {
        Position { x: wrap(self.x, width), y: wrap(self.y, height) }
    }

    /// Moves one cell in `direction` and wraps both axes into the arena.
    pub fn step(&self, direction: Direction) -> (p: Position)
        ensures
            p == self.stepped(direction),
            p.in_arena(),
    {
        let (dx, dy): (i64, i64) = match direction {
            Direction::Left => (-1, 0),
            Direction::Right => (1, 0),
            Direction::Up => (0, 1),
            Direction::Down => (0, -1),
        };
        Position {
            x: wrap_wide(self.x as i64 + dx, ARENA_WIDTH),
            y: wrap_wide(self.y as i64 + dy, ARENA_HEIGHT),
        }
    }
}

/// The position that a part of the snake held before the last movement step.
#[derive(Clone, Copy, PartialEq, Eq, Structural, Debug)]
pub struct PreviousPosition {
    pub pos: Position,
}

/// Direction of the snake's movement.
#[derive(Clone, Copy, PartialEq, Eq, Structural, Debug)]
pub enum Direction {
    Left,
    Right,
    Up,
    Down,
}

/// Which keys are down in the current frame: the four arrows, W, A, S, D,
/// and whether the space bar went down in this frame.
#[derive(Clone, Copy, PartialEq, Eq, Structural, Debug)]
pub struct KeyState {
    pub arrow_left: bool,
    pub key_a: bool,
    pub arrow_right: bool,
    pub key_d: bool,
    pub arrow_up: bool,
    pub key_w: bool,
    pub arrow_down: bool,
    pub key_s: bool,
    pub space: bool,
}

impl KeyState {
    /// The direction that the keys ask for: the first of left, right, up and
    /// down for which a key is down, or `current` when none is.
    pub open spec fn direction_or(self, current: Direction) -> Direction {
        if self.arrow_left || self.key_a {
            Direction::Left
        } else if self.arrow_right || self.key_d {
            Direction::Right
        } else if self.arrow_up || self.key_w {
            Direction::Up
        } else if self.arrow_down || self.key_s {
            Direction::Down
        } else {
            current
        }
    }

    /// The state in which no key is down.
    pub fn released() -> (keys: KeyState)
        ensures
            !keys.space,
            forall|d: Direction| keys.direction_or(d) == d,
    {
        KeyState {
            arrow_left: false,
            key_a: false,
            arrow_right: false,
            key_d: false,
            arrow_up: false,
            key_w: false,
            arrow_down: false,
            key_s: false,
            space: false,
        }
    }
}

impl Direction {
    /// Change of the x coordinate in one step.
    pub open spec fn dx(self) -> int {
        match self {
            Direction::Left => -1,
            Direction::Right => 1,
            Direction::Up => 0,
            Direction::Down => 0,
        }
    }

    /// Change of the y coordinate in one step.
    pub open spec fn dy(self) -> int {
        match self {
            Direction::Left => 0,
            Direction::Right => 0,
            Direction::Up => 1,
            Direction::Down => -1,
        }
    }

    /// The direction that points the other way.
    pub open spec fn reversed(self) -> Direction {
        match self {
            Direction::Left => Direction::Right,
            Direction::Right => Direction::Left,
            Direction::Up => Direction::Down,
            Direction::Down => Direction::Up,
        }
    }

    /// Returns the opposite direction.
    pub fn opposite(&self) -> (r: Direction)
        ensures
            r == self.reversed(),
            r.reversed() == *self,
    {
        match self {
            Direction::Left => Direction::Right,
            Direction::Right => Direction::Left,
            Direction::Up => Direction::Down,
            Direction::Down => Direction::Up,
        }
    }

    /// Reads the keys that are down and returns the corresponding direction:
    /// left before right before up before down, and `current` when none of
    /// them is down.
    pub fn from_input(keyboard_input: &KeyState, current: Direction) -> (r: Direction)
        ensures
            r == keyboard_input.direction_or(current),
    {
        if keyboard_input.arrow_left || keyboard_input.key_a {
            Direction::Left
        } else if keyboard_input.arrow_right || keyboard_input.key_d {
            Direction::Right
        } else if keyboard_input.arrow_up || keyboard_input.key_w {
            Direction::Up
        } else if keyboard_input.arrow_down || keyboard_input.key_s {
            Direction::Down
        } else {
            current
        }
    }
}

/// The snake's head: the direction in which it travels.
#[derive(Clone, Copy, PartialEq, Eq, Structural, Debug)]
pub struct SnakeHead {
    pub direction: Direction,
}

/// One part of the snake: the cell it is on, and the cell it was on before
/// the last movement step.
#[derive(Clone, Copy, PartialEq, Eq, Structural, Debug)]
pub struct SnakeSegment {
    pub position: Position,
    pub previous: PreviousPosition,
}

/// The food on the arena.
#[derive(Clone, Copy, PartialEq, Eq, Structural, Debug)]
pub struct Food {
    pub position: Position,
}

} // verus!
