//! Food: where it may lie, how a cell is drawn for it, and what happens when
//! the snake's head reaches it.

use rand::rngs::ThreadRng;
use rand::Rng;
use vstd::prelude::*;

use crate::game::components::{Food, Position};
use crate::game::constants::{ARENA_HEIGHT, ARENA_WIDTH};
use crate::game::events::{FoodEatenEvent, GrowthEvent};
use crate::game::resources::{GamePhase, GameState};
use crate::snake::snake_is_live;

verus! {

/// How many cells are drawn at random before the arena is searched cell by
/// cell. With a snake that covers a small part of the arena the first draws
/// succeed; the search only makes the placement end on a crowded arena.
pub const SPAWN_ATTEMPTS: u32 = 1024;

/// The generator of the `rand` crate that belongs to the current thread.
#[verifier::external_type_specification]
#[verifier::external_body]
pub struct ExThreadRng(ThreadRng);

/// Calls `rand::rng`, which hands out the current thread's generator. Nothing
/// is claimed of the generator. (`rand::rng` panics if the operating system
/// gives it no seed when the thread first uses it.)
#[verifier::external_body]
fn thread_rng() -> ThreadRng {
    rand::rng()
}

/// Calls `Rng::random_range` of the `rand` crate on the range `0..limit`.
/// Claimed: the number drawn lies in that range. The range is not empty, on
/// which `random_range` would panic. Which number comes is left open: two
/// calls may differ.
#[verifier::external_body]
fn random_below(rng: &mut ThreadRng, limit: i32) -> (value: i32)
    requires
        limit > 0,
    ensures
        0 <= value < limit,
{
    rng.random_range(0..limit)
}

/// Whether `position` lies in the corner of the arena that the score display
/// covers: the three leftmost columns of the two topmost rows.
pub open spec fn in_score_area(position: Position) -> bool {
    position.x <= 2 && position.y >= ARENA_HEIGHT - 2
}

/// Whether food may lie on `position`: the cell is outside the score area
/// and none of `snake_positions`.
pub open spec fn is_free(position: Position, snake_positions: Seq<Position>) -> bool {
    !in_score_area(position) && !snake_positions.contains(position)
}

/// Whether the arena has no cell left for food.
pub open spec fn arena_is_full(snake_positions: Seq<Position>) -> bool {
    forall|position: Position|
        position.in_arena() ==> !#[trigger] is_free(position, snake_positions)
}

/// Whether `food` is a right answer to a request for food on an arena where
/// the snake lies on `snake_positions`: food on a free cell of the arena, or
/// no food when the arena is full.
pub open spec fn placed_for(food: Option<Food>, snake_positions: Seq<Position>) -> bool {
    match food {
        Some(f) => f.position.in_arena() && is_free(f.position, snake_positions),
        None => arena_is_full(snake_positions),
    }
}

/// Whether `position` lies in the score area.
pub fn is_score_area(position: Position) -> (inside: bool)
    ensures
        inside == in_score_area(position),
{
    position.x <= 2 && position.y >= ARENA_HEIGHT - 2
}

/// Whether `position` is one of `snake_positions`.
pub fn is_occupied(position: Position, snake_positions: &[Position]) -> (found: bool)
    ensures
        found == snake_positions@.contains(position),
{
    let mut i: usize = 0;
    while i < snake_positions.len()
        invariant
            i <= snake_positions@.len(),
            forall|j: int| 0 <= j < i ==> snake_positions@[j] != position,
        decreases snake_positions@.len() - i,
    {
        if snake_positions[i].collides_with(&position) {
            return true;
        }
        i += 1;
    }
    false
}

/// Decides on a cell that was drawn for food: it is taken unless it overlaps
/// with the snake or with the score area.
pub fn accepts_food(candidate: Position, snake_positions: &[Position]) -> (accepted: bool)
    ensures
        accepted == is_free(candidate, snake_positions@),
{
    !is_occupied(candidate, snake_positions) && !is_score_area(candidate)
}

/// Searches the arena column by column for a free cell.
pub fn first_free_cell(snake_positions: &[Position]) -> (cell: Option<Position>)
    ensures
        match cell {
            Some(p) => p.in_arena() && is_free(p, snake_positions@),
            None => arena_is_full(snake_positions@),
        },
{
    let mut x: i32 = 0;
    while x < ARENA_WIDTH
        invariant
            0 <= x <= ARENA_WIDTH,
            forall|p: Position|
                p.in_arena() && p.x < x ==> !#[trigger] is_free(p, snake_positions@),
        decreases ARENA_WIDTH - x,
    {
        let mut y: i32 = 0;
        while y < ARENA_HEIGHT
            invariant
                0 <= x < ARENA_WIDTH,
                0 <= y <= ARENA_HEIGHT,
                forall|p: Position|
                    p.in_arena() && p.x < x ==> !#[trigger] is_free(p, snake_positions@),
                forall|p: Position|
                    p.in_arena() && p.x == x && p.y < y ==> !#[trigger] is_free(
                        p,
                        snake_positions@,
                    ),
            decreases ARENA_HEIGHT - y,
        {
            let candidate = Position { x, y };
            if accepts_food(candidate, snake_positions) {
                return Some(candidate);
            }
            y += 1;
        }
        x += 1;
    }
    None
}

/// Places food at a random position that doesn't overlap with the snake or
/// with the score area. Cells are drawn uniformly from the arena until one
/// is free; after [`SPAWN_ATTEMPTS`] draws without success the arena is
/// searched instead, so that the call ends and finds a free cell whenever
/// there is one. Returns `None` only when no cell of the arena is free.
pub fn spawn_food(snake_positions: &[Position]) -> (food: Option<Food>)
    ensures
        placed_for(food, snake_positions@),
        food matches Some(f) ==> !in_score_area(f.position) && forall|i: int|
            0 <= i < snake_positions@.len() ==> snake_positions@[i] != f.position,
{
    let mut rng = thread_rng();
    let mut attempts: u32 = 0;
    while attempts < SPAWN_ATTEMPTS
        invariant
            attempts <= SPAWN_ATTEMPTS,
        decreases SPAWN_ATTEMPTS - attempts,
    {
        let position = Position {
            x: random_below(&mut rng, ARENA_WIDTH),
            y: random_below(&mut rng, ARENA_HEIGHT),
        };
        if accepts_food(position, snake_positions) {
            return Some(Food { position });
        }
        attempts += 1;
    }
    match first_free_cell(snake_positions) {
        Some(position) => Some(Food { position }),
        None => None,
    }
}

/// Whether the head of a live snake lies on the food.
pub open spec fn food_is_eaten(game_state: GameState, food: Option<Food>) -> bool {
    &&& snake_is_live(game_state)
    &&& food matches Some(f)
    &&& f.position == game_state.snake_segments@[0].position
}

/// Detects that the head has reached the food. Then the food is taken away,
/// the score goes up by one, a growth event and a food-eaten event are sent,
/// and new food is placed away from every cell of the snake. Otherwise
/// nothing changes and nothing is sent.
pub fn food_collision(game_state: &mut GameState, food: &mut Option<Food>) -> (events: (
    Option<GrowthEvent>,
    Option<FoodEatenEvent>,
))
    requires
        food_is_eaten(*old(game_state), *old(food)) ==> old(game_state).score < usize::MAX,
    ensures
        food_is_eaten(*old(game_state), *old(food)) ==> {
            &&& final(game_state).score == old(game_state).score + 1
            &&& events.0 == Some(GrowthEvent)
            &&& events.1 == Some(FoodEatenEvent { position: old(food)->0.position })
            &&& placed_for(*final(food), old(game_state).positions())
        },
        !food_is_eaten(*old(game_state), *old(food)) ==> {
            &&& final(game_state).score == old(game_state).score
            &&& events.0 is None
            &&& events.1 is None
            &&& *final(food) == *old(food)
        },
        final(game_state).snake_segments@ == old(game_state).snake_segments@,
        final(game_state).game_over == old(game_state).game_over,
        final(game_state).phase == old(game_state).phase,
{
    if game_state.phase != GamePhase::Playing {
        return (None, None);
    }
    if game_state.snake_segments.len() == 0 {
        return (None, None);
    }
    let head_pos = game_state.snake_segments[0].position;
    match *food {
        Some(current) => {
            if head_pos.collides_with(&current.position) {
                game_state.score += 1;

                // Collect all snake positions to avoid placing food on the snake
                let snake_positions = game_state.occupied_positions();
                *food = spawn_food(snake_positions.as_slice());
                (Some(GrowthEvent), Some(FoodEatenEvent { position: current.position }))
            } else {
                (None, None)
            }
        },
        None => (None, None),
    }
}

} // verus!
