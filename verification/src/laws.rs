//! Rules of the game that hold of every state and every input, stated over
//! the same spec functions as the contracts of the step functions.

use vstd::prelude::*;

use crate::flow::{reaches_food, snake_after_tick};
use crate::game::components::{Direction, KeyState, Position, SnakeHead, SnakeSegment};
use crate::game::constants::{ARENA_HEIGHT, ARENA_WIDTH};
use crate::game::grid::lemma_wrapped_in_range;
use crate::game::resources::{queued_with, INPUT_BUFFER_CAPACITY};
use crate::snake::{
    after_pop, effective_direction, grown, is_turn, moved, queue_after_input, self_collision,
    turns_only,
};

verus! {

/// The opposite of the opposite of a direction is the direction itself, and
/// no direction is its own opposite.
pub proof fn lemma_opposite_is_involution(direction: Direction)
    ensures
        direction.reversed().reversed() == direction,
        direction.reversed() != direction,
{
}

/// Wrapping puts every position, also one with negative coordinates, on the
/// grid: `0 <= x < width` and `0 <= y < height`.
pub proof fn lemma_wrapped_position_on_grid(position: Position, width: i32, height: i32)
    requires
        width > 0,
        height > 0,
    ensures
        0 <= position.wrapped(width as int, height as int).x < width,
        0 <= position.wrapped(width as int, height as int).y < height,
{
    lemma_wrapped_in_range(position.x as int, width as int);
    lemma_wrapped_in_range(position.y as int, height as int);
}

/// A step from any position, in any direction, ends on the arena.
pub proof fn lemma_step_stays_in_arena(position: Position, direction: Direction)
    ensures
        position.stepped(direction).in_arena(),
{
    lemma_wrapped_in_range(position.x + direction.dx(), ARENA_WIDTH as int);
    lemma_wrapped_in_range(position.y + direction.dy(), ARENA_HEIGHT as int);
}

/// On the arena a step changes one coordinate by one, and a step over an
/// edge comes back in on the opposite edge.
pub proof fn lemma_step_wraps_at_edges(position: Position, direction: Direction)
    requires
        position.in_arena(),
    ensures
        position.stepped(direction) == match direction {
            Direction::Left => Position {
                x: if position.x == 0 {
                    (ARENA_WIDTH - 1) as i32
                } else {
                    (position.x - 1) as i32
                },
                y: position.y,
            },
            Direction::Right => Position {
                x: if position.x == ARENA_WIDTH - 1 {
                    0
                } else {
                    (position.x + 1) as i32
                },
                y: position.y,
            },
            Direction::Up => Position {
                x: position.x,
                y: if position.y == ARENA_HEIGHT - 1 {
                    0
                } else {
                    (position.y + 1) as i32
                },
            },
            Direction::Down => Position {
                x: position.x,
                y: if position.y == 0 {
                    (ARENA_HEIGHT - 1) as i32
                } else {
                    (position.y - 1) as i32
                },
            },
        },
{
}

/// Queueing and popping keep a buffer of at most two directions at most two
/// directions long.
pub proof fn lemma_queue_within_capacity(queued: Seq<Direction>, direction: Direction)
    requires
        queued.len() <= INPUT_BUFFER_CAPACITY,
    ensures
        queued_with(queued, direction).len() <= INPUT_BUFFER_CAPACITY,
        after_pop(queued).len() <= INPUT_BUFFER_CAPACITY,
{
}

/// When the keys ask for the opposite of the effective direction, or for
/// the effective direction itself, nothing is queued.
pub proof fn lemma_reversal_is_rejected(keys: KeyState, head: SnakeHead, queued: Seq<Direction>)
    requires
        !is_turn(
            keys.direction_or(effective_direction(head, queued)),
            effective_direction(head, queued),
        ),
    ensures
        queue_after_input(keys, head, queued) == queued,
{
}

/// A quarter turn from the effective direction, added at the end of a chain
/// of quarter turns, gives a chain of quarter turns.
pub proof fn lemma_turn_extends_chain(head: SnakeHead, queued: Seq<Direction>, chosen: Direction)
    requires
        turns_only(head.direction, queued),
        is_turn(chosen, effective_direction(head, queued)),
    ensures
        turns_only(head.direction, queued.push(chosen)),
{
    let after = queued.push(chosen);
    assert forall|i: int| 0 <= i < after.len() implies is_turn(
        #[trigger] after[i],
        if i == 0 {
            head.direction
        } else {
            after[i - 1]
        },
    ) by {
        if i < queued.len() {
            assert(after[i] == queued[i]);
            assert(is_turn(
                queued[i],
                if i == 0 {
                    head.direction
                } else {
                    queued[i - 1]
                },
            ));
        } else {
            assert(after[i] == chosen);
        }
    }
}

/// Reading the keys keeps the queue a chain of quarter turns that starts
/// from the head's direction: no queued direction is the opposite of the
/// one that the snake travels in just before it.
pub proof fn lemma_input_keeps_turns(keys: KeyState, head: SnakeHead, queued: Seq<Direction>)
    requires
        turns_only(head.direction, queued),
    ensures
        turns_only(head.direction, queue_after_input(keys, head, queued)),
{
    let effective = effective_direction(head, queued);
    let chosen = keys.direction_or(effective);
    if is_turn(chosen, effective) && queued.len() < INPUT_BUFFER_CAPACITY {
        lemma_turn_extends_chain(head, queued, chosen);
    }
}

/// The snake after it has moved one step in each of `directions`, in order,
/// without growing.
pub open spec fn moved_along(segments: Seq<SnakeSegment>, directions: Seq<Direction>) -> Seq<
    SnakeSegment,
>
    decreases directions.len(),
{
    if directions.len() == 0 {
        segments
    } else {
        moved(moved_along(segments, directions.drop_last()), directions.last())
    }
}

/// The cell of the head after it has moved along `directions`.
pub open spec fn head_after(segments: Seq<SnakeSegment>, directions: Seq<Direction>) -> Position {
    moved_along(segments, directions)[0].position
}

/// Steps without growth move the snake along the head's path and change
/// nothing else. After `n` steps the snake is as long as before; the segment
/// at index `i >= n` lies where the segment `n` places ahead of it lay at the
/// start; and the segment at index `i < n` lies where the head was `i` steps
/// ago.
pub proof fn lemma_steps_follow_the_head(segments: Seq<SnakeSegment>, directions: Seq<Direction>)
    requires
        segments.len() > 0,
    ensures
        moved_along(segments, directions).len() == segments.len(),
        forall|i: int|
            directions.len() <= i < segments.len() ==> (#[trigger] moved_along(
                segments,
                directions,
            )[i]).position == segments[i - directions.len()].position,
        forall|i: int|
            0 <= i < directions.len() && i < segments.len() ==> (#[trigger] moved_along(
                segments,
                directions,
            )[i]).position == head_after(segments, directions.take(directions.len() - i)),
    decreases directions.len(),
{
    let n = directions.len() as int;
    if n > 0 {
        let earlier = directions.drop_last();
        let before = moved_along(segments, earlier);
        let after = moved_along(segments, directions);
        lemma_steps_follow_the_head(segments, earlier);
        assert forall|i: int| n <= i < segments.len() implies (#[trigger] after[i]).position
            == segments[i - n].position by {
            assert(after[i].position == before[i - 1].position);
        }
        assert forall|i: int| 0 <= i < n && i < segments.len() implies (#[trigger] after[i]).position
            == head_after(segments, directions.take(n - i)) by {
            if i == 0 {
                assert(directions.take(n) == directions);
            } else {
                assert(after[i].position == before[i - 1].position);
                assert(earlier.take((n - 1) - (i - 1)) == directions.take(n - i));
            }
        }
    }
}

/// Growth adds exactly one segment, on the cell of the old tail, and leaves
/// every other segment as it was.
pub proof fn lemma_growth_adds_tail(segments: Seq<SnakeSegment>)
    requires
        segments.len() > 0,
    ensures
        grown(segments).len() == segments.len() + 1,
        grown(segments).last().position == segments.last().position,
        grown(segments).drop_last() == segments,
{
}

/// A tick on which the head arrives on the food makes the snake exactly one
/// segment longer, the new segment on the cell that the tail has after the
/// step; any other tick keeps the length.
pub proof fn lemma_tick_length(
    segments: Seq<SnakeSegment>,
    direction: Direction,
    food: Option<crate::game::components::Food>,
)
    requires
        segments.len() > 0,
    ensures
        reaches_food(moved(segments, direction), food) ==> {
            &&& snake_after_tick(segments, direction, food).len() == segments.len() + 1
            &&& snake_after_tick(segments, direction, food).last().position == moved(
                segments,
                direction,
            ).last().position
        },
        !reaches_food(moved(segments, direction), food) ==> snake_after_tick(
            segments,
            direction,
            food,
        ) == moved(segments, direction),
{
}

/// A head on the cell of the segment at index 2 is a collision.
pub proof fn lemma_collision_at_index_two(segments: Seq<SnakeSegment>)
    requires
        segments.len() >= 3,
        segments[2].position == segments[0].position,
    ensures
        self_collision(segments),
{
}

/// A head that shares its cell with the segment right behind it, and with no
/// other, is no collision; a snake of one or two segments never collides.
pub proof fn lemma_neck_is_exempt(segments: Seq<SnakeSegment>)
    requires
        forall|i: int|
            2 <= i < segments.len() ==> (#[trigger] segments[i]).position != segments[0].position,
    ensures
        !self_collision(segments),
{
}

/// A step ends in a collision exactly when the head steps onto a cell that
/// a segment between neck and tail leaves: the segment behind it moves
/// there. Stepping onto the cell that the tail leaves is safe.
pub proof fn lemma_step_collides(segments: Seq<SnakeSegment>, direction: Direction)
    requires
        segments.len() > 0,
    ensures
        self_collision(moved(segments, direction)) <==> exists|j: int|
            1 <= j && j + 1 < segments.len() && (#[trigger] segments[j]).position
                == segments[0].position.stepped(direction),
{
    let after = moved(segments, direction);
    if self_collision(after) {
        let i = choose|i: int| 2 <= i < after.len() && (#[trigger] after[i]).position == after[0].position;
        assert(segments[i - 1].position == segments[0].position.stepped(direction));
    }
    if exists|j: int|
        1 <= j && j + 1 < segments.len() && (#[trigger] segments[j]).position
            == segments[0].position.stepped(direction) {
        let j = choose|j: int|
            1 <= j && j + 1 < segments.len() && (#[trigger] segments[j]).position
                == segments[0].position.stepped(direction);
        assert(after[j + 1].position == after[0].position);
    }
}

/// A snake of four or more segments whose head steps onto the cell that the
/// segment at index 2 holds collides with itself.
pub proof fn lemma_step_onto_index_two(segments: Seq<SnakeSegment>, direction: Direction)
    requires
        segments.len() >= 4,
        segments[0].position.stepped(direction) == segments[2].position,
    ensures
        self_collision(moved(segments, direction)),
{
    lemma_step_collides(segments, direction);
    assert(segments[2].position == segments[0].position.stepped(direction));
}

} // verus!
