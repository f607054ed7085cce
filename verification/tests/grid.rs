use snake_game::game::{
    initial_snake_position, wrap, wrap_wide, Direction, Position, ARENA_HEIGHT, ARENA_WIDTH,
};

const ALL_DIRECTIONS: [Direction; 4] =
    [Direction::Left, Direction::Right, Direction::Up, Direction::Down];

#[test]
fn opposite_pairs_left_with_right_and_up_with_down() {
    assert_eq!(Direction::Left.opposite(), Direction::Right);
    assert_eq!(Direction::Right.opposite(), Direction::Left);
    assert_eq!(Direction::Up.opposite(), Direction::Down);
    assert_eq!(Direction::Down.opposite(), Direction::Up);
}

#[test]
fn opposite_of_opposite_is_the_direction_itself() {
    for direction in ALL_DIRECTIONS {
        assert_eq!(direction.opposite().opposite(), direction);
        assert_ne!(direction.opposite(), direction);
    }
}

#[test]
fn wrap_leaves_coordinates_of_the_grid_alone() {
    for coord in 0..20 {
        assert_eq!(wrap(coord, 20), coord);
    }
}

#[test]
fn wrap_brings_coordinates_back_from_either_side() {
    assert_eq!(wrap(20, 20), 0);
    assert_eq!(wrap(21, 20), 1);
    assert_eq!(wrap(-1, 20), 19);
    assert_eq!(wrap(-20, 20), 0);
    assert_eq!(wrap(-21, 20), 19);
    assert_eq!(wrap(45, 20), 5);
    assert_eq!(wrap(-45, 20), 15);
}

#[test]
fn wrap_handles_the_extremes_of_the_integer_range() {
    assert_eq!(wrap(i32::MAX, 20), 7);
    assert_eq!(wrap(i32::MIN, 20), 12);
    assert_eq!(wrap(i32::MIN, 1), 0);
    assert_eq!(wrap(i32::MIN, i32::MAX), i32::MAX - 1);
    assert_eq!(wrap(-1, i32::MAX), i32::MAX - 1);
    assert_eq!(wrap_wide(i64::MIN, 20), 12);
    assert_eq!(wrap_wide(i64::MAX, 20), 7);
}

#[test]
fn wrap_result_is_always_within_the_dimension() {
    for dimension in [1, 2, 3, 7, 20, 1000] {
        for coord in -2500..2500 {
            let r = wrap(coord, dimension);
            assert!(0 <= r && r < dimension);
            assert_eq!((r - coord).rem_euclid(dimension), 0);
        }
    }
}

#[test]
fn wrap_agrees_with_the_double_remainder_formula() {
    for coord in -100..100 {
        assert_eq!(wrap(coord, 20), ((coord % 20) + 20) % 20);
    }
}

#[test]
fn position_wrap_works_on_each_axis_independently() {
    let p = Position { x: -1, y: 20 };
    assert_eq!(p.wrap(20, 20), Position { x: 19, y: 0 });
    let q = Position { x: 25, y: -7 };
    assert_eq!(q.wrap(10, 5), Position { x: 5, y: 3 });
    let inside = Position { x: 4, y: 9 };
    assert_eq!(inside.wrap(20, 20), inside);
}

#[test]
fn position_wrap_lands_on_the_grid_for_any_input() {
    for x in [i32::MIN, -41, -20, -1, 0, 19, 20, 399, i32::MAX] {
        for y in [i32::MIN, -3, 0, 7, 20, i32::MAX] {
            let p = Position { x, y }.wrap(ARENA_WIDTH, ARENA_HEIGHT);
            assert!(0 <= p.x && p.x < ARENA_WIDTH);
            assert!(0 <= p.y && p.y < ARENA_HEIGHT);
        }
    }
}

#[test]
fn step_moves_one_cell_along_the_direction() {
    let p = Position { x: 5, y: 5 };
    assert_eq!(p.step(Direction::Left), Position { x: 4, y: 5 });
    assert_eq!(p.step(Direction::Right), Position { x: 6, y: 5 });
    assert_eq!(p.step(Direction::Up), Position { x: 5, y: 6 });
    assert_eq!(p.step(Direction::Down), Position { x: 5, y: 4 });
}

#[test]
fn step_wraps_around_every_edge() {
    assert_eq!(Position { x: 19, y: 7 }.step(Direction::Right), Position { x: 0, y: 7 });
    assert_eq!(Position { x: 0, y: 7 }.step(Direction::Left), Position { x: 19, y: 7 });
    assert_eq!(Position { x: 7, y: 19 }.step(Direction::Up), Position { x: 7, y: 0 });
    assert_eq!(Position { x: 7, y: 0 }.step(Direction::Down), Position { x: 7, y: 19 });
}

#[test]
fn step_and_its_opposite_cancel_on_the_arena() {
    for x in 0..ARENA_WIDTH {
        for y in 0..ARENA_HEIGHT {
            let p = Position { x, y };
            for direction in ALL_DIRECTIONS {
                let there = p.step(direction);
                assert!(0 <= there.x && there.x < ARENA_WIDTH);
                assert!(0 <= there.y && there.y < ARENA_HEIGHT);
                assert_ne!(there, p);
                assert_eq!(there.step(direction.opposite()), p);
            }
        }
    }
}

#[test]
fn step_from_outside_the_arena_lands_on_it() {
    let far = Position { x: i32::MAX, y: i32::MIN };
    assert_eq!(far.step(Direction::Right), Position { x: 8, y: 12 });
    assert_eq!(far.step(Direction::Down), Position { x: 7, y: 11 });
}

#[test]
fn collides_with_compares_both_coordinates() {
    let p = Position { x: 3, y: 4 };
    assert!(p.collides_with(&Position { x: 3, y: 4 }));
    assert!(!p.collides_with(&Position { x: 4, y: 3 }));
    assert!(!p.collides_with(&Position { x: 3, y: 5 }));
    assert!(!p.collides_with(&Position { x: 2, y: 4 }));
}

#[test]
fn the_arena_is_twenty_by_twenty_and_the_snake_starts_at_three_three() {
    assert_eq!(ARENA_WIDTH, 20);
    assert_eq!(ARENA_HEIGHT, 20);
    assert_eq!(initial_snake_position(), Position { x: 3, y: 3 });
}
