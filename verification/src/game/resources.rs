//! The state of a game: phase, score, the snake's segments, the queue of
//! pending turns and the movement timer.

use vstd::prelude::*;

use super::components::{Direction, Position, SnakeSegment};

verus! {

/// Which screen the game is on. Only `Playing` lets the simulation advance.
#[derive(Clone, Copy, PartialEq, Eq, Structural, Debug)]
pub enum GamePhase {
    Menu,
    Playing,
    GameOver,
}

/// Main game state: the snake's segments from head (index 0) to tail, the
/// score, and the phase. `game_over` repeats what `phase` says.
#[derive(Debug)]
pub struct GameState {
    pub snake_segments: Vec<SnakeSegment>,
    pub score: usize,
    pub game_over: bool,
    pub phase: GamePhase,
}

/// The cells that a sequence of segments lies on, in the same order.
pub open spec fn positions_of(segments: Seq<SnakeSegment>) -> Seq<Position> {
    segments.map_values(|s: SnakeSegment| s.position)
}

/// Whether `ahead` is the same cell as `behind` or one step away from it.
pub open spec fn follows(ahead: Position, behind: Position) -> bool {
    ||| ahead == behind
    ||| ahead == behind.stepped(Direction::Left)
    ||| ahead == behind.stepped(Direction::Right)
    ||| ahead == behind.stepped(Direction::Up)
    ||| ahead == behind.stepped(Direction::Down)
}

/// Whether every segment sits on the cell of the segment ahead of it or one
/// step behind that cell.
pub open spec fn connected(segments: Seq<SnakeSegment>) -> bool {
    forall|i: int|
        0 <= i && i + 1 < segments.len() ==> follows(
            #[trigger] segments[i].position,
            segments[i + 1].position,
        )
}

/// Whether every segment lies on the arena.
pub open spec fn all_in_arena(segments: Seq<SnakeSegment>) -> bool {
    forall|i: int| 0 <= i < segments.len() ==> (#[trigger] segments[i]).position.in_arena()
}

impl GameState {
    /// The cells that the snake lies on, head first.
    pub open spec fn positions(&self) -> Seq<Position> {
        positions_of(self.snake_segments@)
    }

    /// What holds of the state between any two steps of a game: while
    /// playing the snake has a head, the flag agrees with the phase, every
    /// segment is on the arena, and the snake is in one piece.
    pub open spec fn wf(&self) -> bool {
        &&& self.phase is Playing ==> self.snake_segments@.len() >= 1
        &&& self.game_over <==> self.phase is GameOver
        &&& all_in_arena(self.snake_segments@)
        &&& connected(self.snake_segments@)
    }

    /// The cells that the snake lies on, head first.
    pub fn occupied_positions(&self) -> (cells: Vec<Position>)
        ensures
            cells@ == self.positions(),
    {
        let mut cells: Vec<Position> = Vec::new();
        let mut i: usize = 0;
        while i < self.snake_segments.len()
            invariant
                i <= self.snake_segments@.len(),
                cells@ == self.positions().take(i as int),
            decreases self.snake_segments@.len() - i,
        {
            cells.push(self.snake_segments[i].position);
            i += 1;
            assert(cells@ == self.positions().take(i as int));
        }
        assert(self.positions().take(i as int) == self.positions());
        cells
    }
}

impl Default for GameState {
    /// The state before any game: the menu, no snake, no score.
    fn default() -> (state: GameState)
        ensures
            state.snake_segments@ == Seq::<SnakeSegment>::empty(),
            state.score == 0,
            !state.game_over,
            state.phase is Menu,
            state.wf(),
    {
        GameState {
            snake_segments: Vec::new(),
            score: 0,
            game_over: false,
            phase: GamePhase::Menu,
        }
    }
}

/// Input buffer to queue direction changes: first in, first out, and never
/// more than two of them.
#[derive(Debug)]
pub struct InputBuffer {
    queued_directions: Vec<Direction>,
}

impl View for InputBuffer {
    type V = Seq<Direction>;

    /// The queued directions, oldest first.
    closed spec fn view(&self) -> Seq<Direction> {
        self.queued_directions@
    }
}

/// Most directions that an [`InputBuffer`] holds.
pub const INPUT_BUFFER_CAPACITY: usize = 2;

/// What queueing `direction` makes of the queue `queued`: the direction is
/// added at the end unless the queue is full.
pub open spec fn queued_with(queued: Seq<Direction>, direction: Direction) -> Seq<Direction> {
    if queued.len() < INPUT_BUFFER_CAPACITY {
        queued.push(direction)
    } else {
        queued
    }
}

impl InputBuffer {
    #[verifier::type_invariant]
    spec fn within_capacity(self) -> bool {
        self.queued_directions@.len() <= INPUT_BUFFER_CAPACITY
    }

    /// An empty buffer.
    pub fn new() -> (buffer: InputBuffer)
        ensures
            buffer@ == Seq::<Direction>::empty(),
    {
        InputBuffer { queued_directions: Vec::new() }
    }

    /// Number of queued directions; never more than two.
    pub fn len(&self) -> (n: usize)
        ensures
            n == self@.len(),
            n <= INPUT_BUFFER_CAPACITY,
    {
        proof {
            use_type_invariant(self);
        }
        self.queued_directions.len()
    }

    /// Queue a direction change (max 2 buffered inputs): with two already
    /// queued the call changes nothing.
    pub fn queue_direction(&mut self, direction: Direction)
        ensures
            final(self)@ == queued_with(old(self)@, direction),
            final(self)@.len() <= INPUT_BUFFER_CAPACITY,
    {
        proof {
            use_type_invariant(&*self);
        }
        if self.queued_directions.len() < INPUT_BUFFER_CAPACITY {
            let mut queued: Vec<Direction> = Vec::new();
            core::mem::swap(&mut queued, &mut self.queued_directions);
            queued.push(direction);
            self.queued_directions = queued;
        }
    }

    /// Pop the next queued direction: the oldest one, if there is any.
    pub fn pop_direction(&mut self) -> (next: Option<Direction>)
        ensures
            old(self)@.len() == 0 ==> next is None && final(self)@ == old(self)@,
            old(self)@.len() > 0 ==> next == Some(old(self)@[0]) && final(self)@ == old(
                self,
            )@.drop_first(),
            final(self)@.len() <= INPUT_BUFFER_CAPACITY,
    {
        proof {
            use_type_invariant(&*self);
        }
        if !self.queued_directions.is_empty() {
            let mut queued: Vec<Direction> = Vec::new();
            core::mem::swap(&mut queued, &mut self.queued_directions);
            let next = queued.remove(0);
            assert(queued@ == old(self)@.drop_first());
            self.queued_directions = queued;
            Some(next)
        } else {
            None
        }
    }

    /// Get the last queued direction without removing it.
    pub fn last_direction(&self) -> (last: Option<Direction>)
        ensures
            self@.len() == 0 ==> last is None,
            self@.len() > 0 ==> last == Some(self@.last()),
    {
        let n = self.queued_directions.len();
        if n > 0 {
            Some(self.queued_directions[n - 1])
        } else {
            None
        }
    }

    /// Clear all queued directions.
    pub fn clear(&mut self)
        ensures
            final(self)@ == Seq::<Direction>::empty(),
    {
        self.queued_directions = Vec::new();
    }
}

impl Default for InputBuffer {
    /// An empty buffer.
    fn default() -> (buffer: InputBuffer)
        ensures
            buffer@ == Seq::<Direction>::empty(),
    {
        InputBuffer::new()
    }
}

/// Time since the last movement step, in nanoseconds. A host uses it to draw
/// the snake between two cells; no rule of the game reads it.
#[derive(Clone, Copy, PartialEq, Eq, Structural, Debug)]
pub struct MoveTimer {
    pub elapsed: u64,
}

impl Default for MoveTimer {
    /// A timer at zero.
    fn default() -> (timer: MoveTimer)
        ensures
            timer.elapsed == 0,
    {
        MoveTimer { elapsed: 0 }
    }
}

/// Adds the time `delta` of one frame, in nanoseconds, to the timer.
pub fn update_move_timer(move_timer: &mut MoveTimer, delta: u64)
    requires
        old(move_timer).elapsed + delta <= u64::MAX,
    ensures
        final(move_timer).elapsed == old(move_timer).elapsed + delta,
{
    move_timer.elapsed = move_timer.elapsed + delta;
}

} // verus!
