//! The course of a game: starting from the menu, one tick of the simulation,
//! and starting again after the game is over.

use vstd::prelude::*;

use crate::food::{
    arena_is_full, food_collision, in_score_area, is_free, placed_for, spawn_food,
};
use crate::game::components::{Direction, Food, KeyState, Position, SnakeHead, SnakeSegment};
use crate::game::constants::{initial_position, initial_snake_position};
use crate::game::events::{FoodEatenEvent, GrowthEvent};
use crate::game::resources::{positions_of, GamePhase, GameState, InputBuffer, MoveTimer};
use crate::snake::{
    after_pop, game_over_check, grown, moved, next_direction, segment_at, self_collision,
    snake_growth, snake_is_live, snake_movement, spawn_snake_head, turns_only,
};

verus! {

/// The state in which every game begins: the snake is a head alone on the
/// initial position and travels to the right, the score is zero, no turn is
/// queued, the movement timer is at zero, and food lies on some cell of the
/// arena other than the head's and outside the score area.
pub open spec fn is_new_game(
    game_state: GameState,
    input_buffer: InputBuffer,
    move_timer: MoveTimer,
    head: SnakeHead,
    food: Option<Food>,
) -> bool {
    &&& game_state.snake_segments@ == seq![segment_at(initial_position())]
    &&& game_state.score == 0
    &&& !game_state.game_over
    &&& game_state.phase is Playing
    &&& input_buffer@ == Seq::<Direction>::empty()
    &&& move_timer.elapsed == 0
    &&& head.direction == Direction::Right
    &&& food matches Some(f)
    &&& f.position.in_arena()
    &&& f.position != initial_position()
    &&& !in_score_area(f.position)
}

/// Whether the food, if there is any, lies on a cell of the arena that is
/// free of the snake and outside the score area.
pub open spec fn food_is_clear(food: Option<Food>, snake_positions: Seq<Position>) -> bool {
    food matches Some(f) ==> f.position.in_arena() && is_free(f.position, snake_positions)
}

/// What holds between any two ticks of a game that began with
/// [`begin_game`]: the state is well formed, the snake has one segment more
/// than the score, the queued turns are quarter turns, and the food is clear
/// of the snake.
pub open spec fn in_order(
    game_state: GameState,
    input_buffer: InputBuffer,
    head: SnakeHead,
    food: Option<Food>,
) -> bool {
    &&& game_state.wf()
    &&& !(game_state.phase is Menu) ==> game_state.snake_segments@.len() == game_state.score + 1
    &&& turns_only(head.direction, input_buffer@)
    &&& food_is_clear(food, game_state.positions())
}

/// An arena on which the snake is a head alone has room for food.
proof fn lemma_new_arena_has_room()
    ensures
        !arena_is_full(seq![initial_position()]),
{
    let corner = Position { x: 0, y: 0 };
    assert(corner.in_arena());
    assert(is_free(corner, seq![initial_position()]));
}

/// Enters the phase `Playing`, from whatever state: sets up a new game.
pub fn begin_game(
    game_state: &mut GameState,
    input_buffer: &mut InputBuffer,
    move_timer: &mut MoveTimer,
    head: &mut SnakeHead,
    food: &mut Option<Food>,
)
    ensures
        is_new_game(
            *final(game_state),
            *final(input_buffer),
            *final(move_timer),
            *final(head),
            *final(food),
        ),
        in_order(*final(game_state), *final(input_buffer), *final(head), *final(food)),
{
    // Reset game state
    game_state.snake_segments = Vec::new();
    game_state.score = 0;
    game_state.game_over = false;
    game_state.phase = GamePhase::Playing;

    // Clear input buffer and reset move timer
    input_buffer.clear();
    move_timer.elapsed = 0;

    // Make the new snake's head
    let (new_head, head_segment) = spawn_snake_head();
    *head = new_head;
    game_state.snake_segments.push(head_segment);

    // Place the first food
    let mut taken: Vec<Position> = Vec::new();
    taken.push(initial_snake_position());
    assert(taken@ == seq![initial_position()]);
    assert(taken@[0] == initial_position());
    *food = spawn_food(taken.as_slice());
    proof {
        lemma_new_arena_has_room();
        assert(game_state.snake_segments@ == seq![segment_at(initial_position())]);
    }
}

/// Starts the game from the menu: when the phase is `Menu` and the space bar
/// went down, a new game begins. Returns whether it did; if not, nothing has
/// changed.
pub fn start_game_from_menu(
    keyboard_input: &KeyState,
    game_state: &mut GameState,
    input_buffer: &mut InputBuffer,
    move_timer: &mut MoveTimer,
    head: &mut SnakeHead,
    food: &mut Option<Food>,
) -> (started: bool)
    ensures
        started == (old(game_state).phase is Menu && keyboard_input.space),
        started ==> is_new_game(
            *final(game_state),
            *final(input_buffer),
            *final(move_timer),
            *final(head),
            *final(food),
        ),
        !started ==> {
            &&& final(game_state).snake_segments@ == old(game_state).snake_segments@
            &&& final(game_state).score == old(game_state).score
            &&& final(game_state).game_over == old(game_state).game_over
            &&& final(game_state).phase == old(game_state).phase
            &&& final(input_buffer)@ == old(input_buffer)@
            &&& *final(move_timer) == *old(move_timer)
            &&& *final(head) == *old(head)
            &&& *final(food) == *old(food)
        },
        started ==> in_order(*final(game_state), *final(input_buffer), *final(head), *final(food)),
{
    if game_state.phase == GamePhase::Menu && keyboard_input.space {
        begin_game(game_state, input_buffer, move_timer, head, food);
        true
    } else {
        false
    }
}

/// Restarts the game from the game over screen: when the phase is
/// `GameOver` and the space bar went down, the old snake and the old food
/// are dropped and a new game begins. Returns whether it did; if not,
/// nothing has changed.
pub fn restart_game(
    keyboard_input: &KeyState,
    game_state: &mut GameState,
    input_buffer: &mut InputBuffer,
    move_timer: &mut MoveTimer,
    head: &mut SnakeHead,
    food: &mut Option<Food>,
) -> (restarted: bool)
    ensures
        restarted == (old(game_state).phase is GameOver && keyboard_input.space),
        restarted ==> is_new_game(
            *final(game_state),
            *final(input_buffer),
            *final(move_timer),
            *final(head),
            *final(food),
        ),
        !restarted ==> {
            &&& final(game_state).snake_segments@ == old(game_state).snake_segments@
            &&& final(game_state).score == old(game_state).score
            &&& final(game_state).game_over == old(game_state).game_over
            &&& final(game_state).phase == old(game_state).phase
            &&& final(input_buffer)@ == old(input_buffer)@
            &&& *final(move_timer) == *old(move_timer)
            &&& *final(head) == *old(head)
            &&& *final(food) == *old(food)
        },
        restarted ==> in_order(
            *final(game_state),
            *final(input_buffer),
            *final(head),
            *final(food),
        ),
{
    if game_state.phase == GamePhase::GameOver && keyboard_input.space {
        begin_game(game_state, input_buffer, move_timer, head, food);
        true
    } else {
        false
    }
}

/// Whether food lies on the cell of the head of `segments`.
pub open spec fn reaches_food(segments: Seq<SnakeSegment>, food: Option<Food>) -> bool {
    &&& segments.len() > 0
    &&& food matches Some(f)
    &&& f.position == segments[0].position
}

/// The snake after one tick in `direction`: it has moved one step, and if
/// its head has arrived on the food it has grown by one segment.
pub open spec fn snake_after_tick(
    segments: Seq<SnakeSegment>,
    direction: Direction,
    food: Option<Food>,
) -> Seq<SnakeSegment> {
    let stepped = moved(segments, direction);
    if reaches_food(stepped, food) {
        grown(stepped)
    } else {
        stepped
    }
}

/// Food that the moving snake's head does not arrive on stays clear of the
/// snake: the other segments only move onto cells that the snake held.
pub proof fn lemma_step_keeps_food_clear(
    segments: Seq<SnakeSegment>,
    direction: Direction,
    food: Option<Food>,
)
    requires
        segments.len() > 0,
        food_is_clear(food, positions_of(segments)),
        !reaches_food(moved(segments, direction), food),
    ensures
        food_is_clear(food, positions_of(moved(segments, direction))),
{
    if let Some(f) = food {
        let before = positions_of(segments);
        let after = positions_of(moved(segments, direction));
        assert forall|i: int| 0 <= i < after.len() implies after[i] != f.position by {
            if i > 0 {
                assert(after[i] == before[i - 1]);
                assert(before.contains(before[i - 1]));
            }
        }
    }
}

/// A cell that is free of the snake is still free when the snake has grown:
/// the new segment lies on a cell that the snake held.
pub proof fn lemma_growth_keeps_cell_free(segments: Seq<SnakeSegment>, position: Position)
    requires
        is_free(position, positions_of(segments)),
    ensures
        is_free(position, positions_of(grown(segments))),
{
    if segments.len() > 0 {
        let before = positions_of(segments);
        let after = positions_of(grown(segments));
        assert forall|i: int| 0 <= i < after.len() implies after[i] != position by {
            if i < before.len() {
                assert(after[i] == before[i]);
                assert(before.contains(before[i]));
            } else {
                assert(after[i] == before[before.len() - 1]);
                assert(before.contains(before[before.len() - 1]));
            }
        }
    }
}

/// One tick of the simulation, run whenever the movement interval has
/// passed. While the game is being played and the snake has a head, in this
/// order: the snake moves one step; if the head has arrived on the food, the
/// score goes up, new food is placed and the snake grows by one segment on
/// its tail's cell; then a collision of the head with the snake's body ends
/// the game. A step that both eats and collides counts the food and ends the
/// game. In any other state nothing changes.
///
/// Returns the events of the tick, for a host that shows them.
pub fn tick(
    game_state: &mut GameState,
    input_buffer: &mut InputBuffer,
    move_timer: &mut MoveTimer,
    head: &mut SnakeHead,
    food: &mut Option<Food>,
) -> (events: (Option<GrowthEvent>, Option<FoodEatenEvent>))
    requires
        old(game_state).score < usize::MAX,
    ensures
        snake_is_live(*old(game_state)) ==> {
            let direction = next_direction(*old(head), old(input_buffer)@);
            let stepped = moved(old(game_state).snake_segments@, direction);
            let eaten = reaches_food(stepped, *old(food));
            let collided = self_collision(final(game_state).snake_segments@);
            &&& final(head).direction == direction
            &&& final(input_buffer)@ == after_pop(old(input_buffer)@)
            &&& final(move_timer).elapsed == 0
            &&& final(game_state).snake_segments@ == snake_after_tick(
                old(game_state).snake_segments@,
                direction,
                *old(food),
            )
            &&& final(game_state).score == old(game_state).score + if eaten {
                1int
            } else {
                0int
            }
            &&& final(game_state).phase is GameOver <==> collided
            &&& final(game_state).phase is Playing <==> !collided
            &&& final(game_state).game_over == (collided || old(game_state).game_over)
            &&& eaten ==> {
                &&& events.0 == Some(GrowthEvent)
                &&& events.1 == Some(FoodEatenEvent { position: stepped[0].position })
                &&& placed_for(*final(food), positions_of(stepped))
            }
            &&& !eaten ==> events.0 is None && events.1 is None && *final(food) == *old(food)
        },
        !snake_is_live(*old(game_state)) ==> {
            &&& final(game_state).snake_segments@ == old(game_state).snake_segments@
            &&& final(game_state).score == old(game_state).score
            &&& final(game_state).game_over == old(game_state).game_over
            &&& final(game_state).phase == old(game_state).phase
            &&& final(input_buffer)@ == old(input_buffer)@
            &&& *final(move_timer) == *old(move_timer)
            &&& *final(head) == *old(head)
            &&& *final(food) == *old(food)
            &&& events.0 is None
            &&& events.1 is None
        },
        old(game_state).wf() ==> final(game_state).wf(),
        food_is_clear(*old(food), old(game_state).positions()) ==> food_is_clear(
            *final(food),
            final(game_state).positions(),
        ),
        turns_only(old(head).direction, old(input_buffer)@) ==> {
            &&& turns_only(final(head).direction, final(input_buffer)@)
            &&& final(head).direction != old(head).direction.reversed()
        },
        in_order(*old(game_state), *old(input_buffer), *old(head), *old(food)) ==> in_order(
            *final(game_state),
            *final(input_buffer),
            *final(head),
            *final(food),
        ),
{
    snake_movement(game_state, input_buffer, move_timer, head);
    let ghost stepped = game_state.snake_segments@;
    let events = food_collision(game_state, food);
    snake_growth(game_state, events.0);
    proof {
        if snake_is_live(*old(game_state)) {
            if events.0 is Some {
                if let Some(f) = *food {
                    lemma_growth_keeps_cell_free(stepped, f.position);
                }
            } else if food_is_clear(*old(food), old(game_state).positions()) {
                lemma_step_keeps_food_clear(
                    old(game_state).snake_segments@,
                    head.direction,
                    *old(food),
                );
            }
        }
    }
    game_over_check(game_state);
    events
}

} // verus!
