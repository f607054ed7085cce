//! The snake: reading turns from the keys, the movement step, growth and the
//! check for a collision of the snake with itself.

use vstd::prelude::*;

use crate::game::components::{
    Direction, KeyState, Position, PreviousPosition, SnakeHead, SnakeSegment,
};
use crate::game::constants::{initial_position, initial_snake_position};
use crate::game::events::GrowthEvent;
use crate::game::resources::{
    all_in_arena, connected, follows, queued_with, GamePhase, GameState, InputBuffer, MoveTimer,
};

verus! {

/// A segment that has just been put on `position`: it has not moved yet, so
/// its previous position is the same cell.
pub open spec fn segment_at(position: Position) -> SnakeSegment {
    SnakeSegment { position, previous: PreviousPosition { pos: position } }
}

/// Makes the head of a new snake: it travels to the right and lies on the
/// initial position. The segment is the first of the snake's segments.
pub fn spawn_snake_head() -> (parts: (SnakeHead, SnakeSegment))
    ensures
        parts.0.direction == Direction::Right,
        parts.1 == segment_at(initial_position()),
{
    let position = initial_snake_position();
    (
        SnakeHead { direction: Direction::Right },
        SnakeSegment { position, previous: PreviousPosition { pos: position } },
    )
}

/// Makes a snake body segment at the given position.
pub fn spawn_snake_segment(position: Position) -> (segment: SnakeSegment)
    ensures
        segment == segment_at(position),
{
    SnakeSegment { position, previous: PreviousPosition { pos: position } }
}

/// Whether the movement, input and collision steps act on this state: the
/// game is being played and the snake has a head.
pub open spec fn snake_is_live(game_state: GameState) -> bool {
    game_state.phase is Playing && game_state.snake_segments@.len() > 0
}

/// The direction that the snake will travel in once every queued turn has
/// been taken: the last queued direction, or the head's own with none queued.
pub open spec fn effective_direction(head: SnakeHead, queued: Seq<Direction>) -> Direction {
    if queued.len() > 0 {
        queued.last()
    } else {
        head.direction
    }
}

/// Whether `chosen` turns the snake a quarter from `from`: it is neither the
/// same direction nor the opposite one.
pub open spec fn is_turn(chosen: Direction, from: Direction) -> bool {
    chosen != from && chosen != from.reversed()
}

/// The queue after one pass over the keys: the direction that the keys ask
/// for is queued if it turns the snake a quarter from the effective
/// direction and the queue has room.
pub open spec fn queue_after_input(keys: KeyState, head: SnakeHead, queued: Seq<Direction>) -> Seq<
    Direction,
> {
    let effective = effective_direction(head, queued);
    let chosen = keys.direction_or(effective);
    if is_turn(chosen, effective) {
        queued_with(queued, chosen)
    } else {
        queued
    }
}

/// Whether every queued direction is a quarter turn from the one before it,
/// the first from `current`. A snake that takes such turns one by one never
/// reverses into its own neck.
pub open spec fn turns_only(current: Direction, queued: Seq<Direction>) -> bool {
    forall|i: int|
        0 <= i < queued.len() ==> is_turn(
            #[trigger] queued[i],
            if i == 0 {
                current
            } else {
                queued[i - 1]
            },
        )
}

/// Reads the keys and queues a direction change. Runs on every frame while
/// the game is being played; the queue lets a player enter two turns between
/// two movement steps. A direction equal or opposite to the effective one is
/// never queued.
pub fn snake_movement_input(
    keyboard_input: &KeyState,
    input_buffer: &mut InputBuffer,
    head: &SnakeHead,
    game_state: &GameState,
)
    ensures
        snake_is_live(*game_state) ==> final(input_buffer)@ == queue_after_input(
            *keyboard_input,
            *head,
            old(input_buffer)@,
        ),
        !snake_is_live(*game_state) ==> final(input_buffer)@ == old(input_buffer)@,
        keyboard_input.direction_or(effective_direction(*head, old(input_buffer)@))
            == effective_direction(*head, old(input_buffer)@).reversed() ==> final(input_buffer)@
            == old(input_buffer)@,
        turns_only(head.direction, old(input_buffer)@) ==> turns_only(
            head.direction,
            final(input_buffer)@,
        ),
{
    if game_state.phase != GamePhase::Playing {
        return ;
    }
    if game_state.snake_segments.len() > 0 {
        // Get the last direction in buffer or current head direction
        let last_direction = match input_buffer.last_direction() {
            Some(direction) => direction,
            None => head.direction,
        };

        // Get new direction from input
        let new_direction = Direction::from_input(keyboard_input, last_direction);

        // If direction changed and it's not opposite to the last direction, queue it
        if new_direction != last_direction && new_direction != last_direction.opposite() {
            input_buffer.queue_direction(new_direction);
        }
    }
}

/// The direction of the next movement step: the oldest queued direction, or
/// the head's own with none queued.
pub open spec fn next_direction(head: SnakeHead, queued: Seq<Direction>) -> Direction {
    if queued.len() > 0 {
        queued[0]
    } else {
        head.direction
    }
}

/// The queue without its oldest direction.
pub open spec fn after_pop(queued: Seq<Direction>) -> Seq<Direction> {
    if queued.len() > 0 {
        queued.drop_first()
    } else {
        queued
    }
}

/// The snake after one movement step in `direction`: the head is one cell
/// further on the toroidal arena, every other segment is where the segment
/// ahead of it was, and each segment remembers the cell it left.
pub open spec fn moved(segments: Seq<SnakeSegment>, direction: Direction) -> Seq<SnakeSegment> {
    Seq::new(
        segments.len(),
        |i: int|
            SnakeSegment {
                position: if i == 0 {
                    segments[0].position.stepped(direction)
                } else {
                    segments[i - 1].position
                },
                previous: PreviousPosition { pos: segments[i].position },
            },
    )
}

/// A movement step keeps the snake on the arena and in one piece.
pub proof fn lemma_moved_keeps_shape(segments: Seq<SnakeSegment>, direction: Direction)
    requires
        segments.len() > 0,
    ensures
        moved(segments, direction).len() == segments.len(),
        all_in_arena(segments) ==> all_in_arena(moved(segments, direction)),
        connected(segments) ==> connected(moved(segments, direction)),
{
    let after = moved(segments, direction);
    if all_in_arena(segments) {
        assert forall|i: int| 0 <= i < after.len() implies (#[trigger] after[i]).position.in_arena() by {
            if i == 0 {
                crate::game::grid::lemma_wrapped_in_range(
                    segments[0].position.x + direction.dx(),
                    crate::game::constants::ARENA_WIDTH as int,
                );
                crate::game::grid::lemma_wrapped_in_range(
                    segments[0].position.y + direction.dy(),
                    crate::game::constants::ARENA_HEIGHT as int,
                );
            } else {
                assert(segments[i - 1].position.in_arena());
            }
        }
    }
    if connected(segments) {
        assert forall|i: int| 0 <= i && i + 1 < after.len() implies follows(
            #[trigger] after[i].position,
            after[i + 1].position,
        ) by {
            if i == 0 {
                assert(after[0].position == after[1].position.stepped(direction));
            } else {
                assert(follows(segments[i - 1].position, segments[i].position));
            }
        }
    }
}

/// Taking the oldest queued turn keeps the rest of the queue a chain of
/// quarter turns, and never reverses the snake.
pub proof fn lemma_pop_keeps_turns(head: SnakeHead, queued: Seq<Direction>)
    requires
        turns_only(head.direction, queued),
    ensures
        turns_only(next_direction(head, queued), after_pop(queued)),
        next_direction(head, queued) != head.direction.reversed(),
{
    let rest = after_pop(queued);
    let next = next_direction(head, queued);
    if queued.len() > 0 {
        assert(is_turn(queued[0], head.direction));
        assert forall|i: int| 0 <= i < rest.len() implies is_turn(
            #[trigger] rest[i],
            if i == 0 {
                next
            } else {
                rest[i - 1]
            },
        ) by {
            assert(rest[i] == queued[i + 1]);
            assert(is_turn(queued[i + 1], queued[i]));
        }
    }
}

/// Moves the segments one step in `direction`, as [`moved`] says: first the
/// positions are recorded, then the head is moved, then each other segment
/// is put where the segment ahead of it was.
fn advance_segments(segments: &mut Vec<SnakeSegment>, direction: Direction)
    requires
        old(segments)@.len() > 0,
    ensures
        final(segments)@ == moved(old(segments)@, direction),
{
    let length = segments.len();
    let ghost before = segments@;

    // Record the current position of each segment before any movement
    let mut segments_positions: Vec<Position> = Vec::new();
    let mut k: usize = 0;
    while k < length
        invariant
            k <= length,
            length == segments@.len(),
            segments@ == before,
            segments_positions@.len() == k,
            forall|j: int| 0 <= j < k ==> segments_positions@[j] == before[j].position,
        decreases length - k,
    {
        segments_positions.push(segments[k].position);
        k += 1;
    }

    // Move the head one cell in the current direction, around the edges
    let head_position = segments_positions[0];
    segments.set(
        0,
        SnakeSegment {
            position: head_position.step(direction),
            previous: PreviousPosition { pos: head_position },
        },
    );

    // Move each body segment to the position of the segment in front of it
    let mut i: usize = 1;
    while i < length
        invariant
            1 <= i <= length,
            length == before.len(),
            segments@.len() == length,
            segments_positions@.len() == length,
            forall|j: int| 0 <= j < length ==> segments_positions@[j] == before[j].position,
            forall|j: int| 0 <= j < i ==> segments@[j] == moved(before, direction)[j],
        decreases length - i,
    {
        segments.set(
            i,
            SnakeSegment {
                position: segments_positions[i - 1],
                previous: PreviousPosition { pos: segments_positions[i] },
            },
        );
        i += 1;
    }
    assert(segments@ == moved(before, direction));
}

/// Executes one movement step of the snake. While the game is being played
/// and the snake has a head: the oldest queued direction, if there is one,
/// becomes the head's direction; the head advances one cell in its direction
/// and wraps around the arena's edges; every other segment takes the place
/// of the segment ahead of it; the movement timer starts again at zero.
/// In any other state the call changes nothing.
pub fn snake_movement(
    game_state: &mut GameState,
    input_buffer: &mut InputBuffer,
    move_timer: &mut MoveTimer,
    head: &mut SnakeHead,
)
    ensures
        snake_is_live(*old(game_state)) ==> {
            &&& final(head).direction == next_direction(*old(head), old(input_buffer)@)
            &&& final(input_buffer)@ == after_pop(old(input_buffer)@)
            &&& final(game_state).snake_segments@ == moved(
                old(game_state).snake_segments@,
                final(head).direction,
            )
            &&& final(move_timer).elapsed == 0
        },
        !snake_is_live(*old(game_state)) ==> {
            &&& *final(head) == *old(head)
            &&& final(input_buffer)@ == old(input_buffer)@
            &&& final(game_state).snake_segments@ == old(game_state).snake_segments@
            &&& *final(move_timer) == *old(move_timer)
        },
        final(game_state).score == old(game_state).score,
        final(game_state).game_over == old(game_state).game_over,
        final(game_state).phase == old(game_state).phase,
        old(game_state).wf() ==> final(game_state).wf(),
        turns_only(old(head).direction, old(input_buffer)@) ==> {
            &&& turns_only(final(head).direction, final(input_buffer)@)
            &&& final(head).direction != old(head).direction.reversed()
        },
{
    if game_state.phase != GamePhase::Playing {
        return ;
    }
    if game_state.snake_segments.len() == 0 {
        return ;
    }
    // Reset the move timer

    move_timer.elapsed = 0;

    // Try to consume a buffered direction
    match input_buffer.pop_direction() {
        Some(buffered_direction) => {
            head.direction = buffered_direction;
        },
        None => {},
    }
    advance_segments(&mut game_state.snake_segments, head.direction);
    proof {
        lemma_moved_keeps_shape(old(game_state).snake_segments@, head.direction);
        if turns_only(old(head).direction, old(input_buffer)@) {
            lemma_pop_keeps_turns(*old(head), old(input_buffer)@);
        }
    }
}

/// The snake after it has grown: a new segment lies on the cell of the old
/// tail. A snake without segments cannot grow.
pub open spec fn grown(segments: Seq<SnakeSegment>) -> Seq<SnakeSegment> {
    if segments.len() == 0 {
        segments
    } else {
        segments.push(segment_at(segments.last().position))
    }
}

/// Growth keeps the snake on the arena and in one piece.
pub proof fn lemma_grown_keeps_shape(segments: Seq<SnakeSegment>)
    ensures
        all_in_arena(segments) ==> all_in_arena(grown(segments)),
        connected(segments) ==> connected(grown(segments)),
{
    let after = grown(segments);
    if segments.len() > 0 {
        if all_in_arena(segments) {
            assert forall|i: int| 0 <= i < after.len() implies (#[trigger] after[i]).position.in_arena() by {
                if i < segments.len() {
                    assert(segments[i].position.in_arena());
                } else {
                    assert(segments[segments.len() - 1].position.in_arena());
                }
            }
        }
        if connected(segments) {
            assert forall|i: int| 0 <= i && i + 1 < after.len() implies follows(
                #[trigger] after[i].position,
                after[i + 1].position,
            ) by {
                if i + 1 < segments.len() {
                    assert(follows(segments[i].position, segments[i + 1].position));
                }
            }
        }
    }
}

/// Handles snake growth: when a growth event is pending and the snake has a
/// tail, a new segment is added behind the tail, on the tail's own cell (it
/// parts from the tail on the next movement step).
pub fn snake_growth(game_state: &mut GameState, growth: Option<GrowthEvent>)
    ensures
        growth is Some ==> final(game_state).snake_segments@ == grown(
            old(game_state).snake_segments@,
        ),
        growth is None ==> final(game_state).snake_segments@ == old(game_state).snake_segments@,
        final(game_state).score == old(game_state).score,
        final(game_state).game_over == old(game_state).game_over,
        final(game_state).phase == old(game_state).phase,
        old(game_state).wf() ==> final(game_state).wf(),
{
    if growth.is_some() {
        let length = game_state.snake_segments.len();
        if length > 0 {
            let last_pos = game_state.snake_segments[length - 1].position;
            let new_segment = spawn_snake_segment(last_pos);
            game_state.snake_segments.push(new_segment);
        }
        proof {
            lemma_grown_keeps_shape(old(game_state).snake_segments@);
        }
    }
}

/// Whether the head lies on the cell of a segment other than the one right
/// behind it. The segment at index 1 does not count: right after the snake
/// has grown from one segment to two, it lies on the head's own cell.
pub open spec fn self_collision(segments: Seq<SnakeSegment>) -> bool {
    exists|i: int|
        2 <= i < segments.len() && (#[trigger] segments[i]).position == segments[0].position
}

/// Checks for game over: while the game is being played, a collision of the
/// head with a segment at index 2 or beyond ends the game.
pub fn game_over_check(game_state: &mut GameState)
    ensures
        old(game_state).phase is Playing && self_collision(old(game_state).snake_segments@) ==> {
            &&& final(game_state).game_over
            &&& final(game_state).phase is GameOver
        },
        !(old(game_state).phase is Playing && self_collision(old(game_state).snake_segments@))
            ==> {
            &&& final(game_state).game_over == old(game_state).game_over
            &&& final(game_state).phase == old(game_state).phase
        },
        final(game_state).snake_segments@ == old(game_state).snake_segments@,
        final(game_state).score == old(game_state).score,
        old(game_state).wf() ==> final(game_state).wf(),
{
    if game_state.phase != GamePhase::Playing {
        return ;
    }
    let length = game_state.snake_segments.len();
    let mut collided = false;
    let mut i: usize = 2;
    while i < length
        invariant
            2 <= i,
            length == game_state.snake_segments@.len(),
            collided ==> self_collision(game_state.snake_segments@),
            !collided ==> forall|j: int|
                2 <= j < i && j < length ==> (#[trigger] game_state.snake_segments@[j]).position
                    != game_state.snake_segments@[0].position,
        decreases length - i,
    {
        let head_pos = game_state.snake_segments[0].position;
        if head_pos.collides_with(&game_state.snake_segments[i].position) {
            collided = true;
        }
        i += 1;
    }
    if collided {
        game_state.game_over = true;
        game_state.phase = GamePhase::GameOver;
    }
}

} // verus!
