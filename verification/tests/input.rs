use snake_game::game::{
    Direction, GamePhase, GameState, InputBuffer, KeyState, Position, PreviousPosition,
    SnakeHead, SnakeSegment,
};
use snake_game::snake::snake_movement_input;

fn no_keys() -> KeyState {
    KeyState::released()
}

fn playing_with_head_at(x: i32, y: i32) -> GameState {
    let position = Position { x, y };
    GameState {
        snake_segments: vec![SnakeSegment { position, previous: PreviousPosition { pos: position } }],
        score: 0,
        game_over: false,
        phase: GamePhase::Playing,
    }
}

fn drain(buffer: &mut InputBuffer) -> Vec<Direction> {
    let mut all = Vec::new();
    while let Some(direction) = buffer.pop_direction() {
        all.push(direction);
    }
    all
}

#[test]
fn released_keys_keep_the_current_direction() {
    let keys = KeyState::released();
    assert!(!keys.space);
    for current in [Direction::Left, Direction::Right, Direction::Up, Direction::Down] {
        assert_eq!(Direction::from_input(&keys, current), current);
    }
}

#[test]
fn each_key_maps_to_its_direction() {
    let current = Direction::Down;
    let cases = [
        (KeyState { arrow_left: true, ..no_keys() }, Direction::Left),
        (KeyState { key_a: true, ..no_keys() }, Direction::Left),
        (KeyState { arrow_right: true, ..no_keys() }, Direction::Right),
        (KeyState { key_d: true, ..no_keys() }, Direction::Right),
        (KeyState { arrow_up: true, ..no_keys() }, Direction::Up),
        (KeyState { key_w: true, ..no_keys() }, Direction::Up),
        (KeyState { arrow_down: true, ..no_keys() }, Direction::Down),
        (KeyState { key_s: true, ..no_keys() }, Direction::Down),
    ];
    for (keys, expected) in cases {
        assert_eq!(Direction::from_input(&keys, current), expected);
    }
}

#[test]
fn keys_are_read_in_the_order_left_right_up_down() {
    let all = KeyState {
        arrow_left: true,
        key_a: true,
        arrow_right: true,
        key_d: true,
        arrow_up: true,
        key_w: true,
        arrow_down: true,
        key_s: true,
        space: false,
    };
    assert_eq!(Direction::from_input(&all, Direction::Down), Direction::Left);
    let without_left = KeyState { arrow_left: false, key_a: false, ..all };
    assert_eq!(Direction::from_input(&without_left, Direction::Down), Direction::Right);
    let without_right = KeyState { arrow_right: false, key_d: false, ..without_left };
    assert_eq!(Direction::from_input(&without_right, Direction::Left), Direction::Up);
    let without_up = KeyState { arrow_up: false, key_w: false, ..without_right };
    assert_eq!(Direction::from_input(&without_up, Direction::Left), Direction::Down);
}

#[test]
fn space_alone_does_not_choose_a_direction() {
    let keys = KeyState { space: true, ..no_keys() };
    assert_eq!(Direction::from_input(&keys, Direction::Up), Direction::Up);
}

#[test]
fn new_buffer_is_empty() {
    let mut buffer = InputBuffer::new();
    assert_eq!(buffer.len(), 0);
    assert_eq!(buffer.last_direction(), None);
    assert_eq!(buffer.pop_direction(), None);
    assert_eq!(buffer.len(), 0);
    let mut by_default = InputBuffer::default();
    assert_eq!(by_default.len(), 0);
    assert_eq!(by_default.pop_direction(), None);
}

#[test]
fn buffer_is_first_in_first_out() {
    let mut buffer = InputBuffer::new();
    buffer.queue_direction(Direction::Up);
    buffer.queue_direction(Direction::Left);
    assert_eq!(buffer.len(), 2);
    assert_eq!(buffer.pop_direction(), Some(Direction::Up));
    assert_eq!(buffer.len(), 1);
    assert_eq!(buffer.pop_direction(), Some(Direction::Left));
    assert_eq!(buffer.pop_direction(), None);
}

#[test]
fn buffer_never_holds_more_than_two() {
    let mut buffer = InputBuffer::new();
    buffer.queue_direction(Direction::Up);
    buffer.queue_direction(Direction::Left);
    buffer.queue_direction(Direction::Down);
    buffer.queue_direction(Direction::Right);
    assert_eq!(buffer.len(), 2);
    assert_eq!(buffer.last_direction(), Some(Direction::Left));
    assert_eq!(drain(&mut buffer), vec![Direction::Up, Direction::Left]);
}

#[test]
fn buffer_takes_a_direction_again_after_a_pop() {
    let mut buffer = InputBuffer::new();
    buffer.queue_direction(Direction::Up);
    buffer.queue_direction(Direction::Left);
    assert_eq!(buffer.pop_direction(), Some(Direction::Up));
    buffer.queue_direction(Direction::Down);
    buffer.queue_direction(Direction::Right);
    assert_eq!(buffer.len(), 2);
    assert_eq!(drain(&mut buffer), vec![Direction::Left, Direction::Down]);
}

#[test]
fn buffer_itself_does_not_filter_directions() {
    let mut buffer = InputBuffer::new();
    buffer.queue_direction(Direction::Up);
    buffer.queue_direction(Direction::Down);
    assert_eq!(drain(&mut buffer), vec![Direction::Up, Direction::Down]);
}

#[test]
fn last_direction_peeks_without_removing() {
    let mut buffer = InputBuffer::new();
    buffer.queue_direction(Direction::Up);
    assert_eq!(buffer.last_direction(), Some(Direction::Up));
    assert_eq!(buffer.last_direction(), Some(Direction::Up));
    buffer.queue_direction(Direction::Right);
    assert_eq!(buffer.last_direction(), Some(Direction::Right));
    assert_eq!(buffer.len(), 2);
}

#[test]
fn clear_empties_the_buffer() {
    let mut buffer = InputBuffer::new();
    buffer.queue_direction(Direction::Up);
    buffer.queue_direction(Direction::Left);
    buffer.clear();
    assert_eq!(buffer.len(), 0);
    assert_eq!(buffer.last_direction(), None);
    assert_eq!(buffer.pop_direction(), None);
}

#[test]
fn input_queues_a_quarter_turn() {
    let state = playing_with_head_at(3, 3);
    let head = SnakeHead { direction: Direction::Right };
    let mut buffer = InputBuffer::new();
    snake_movement_input(&KeyState { arrow_up: true, ..no_keys() }, &mut buffer, &head, &state);
    assert_eq!(drain(&mut buffer), vec![Direction::Up]);
}

#[test]
fn input_rejects_the_opposite_of_the_head_direction() {
    let state = playing_with_head_at(3, 3);
    for direction in [Direction::Left, Direction::Right, Direction::Up, Direction::Down] {
        let head = SnakeHead { direction };
        let keys = match direction.opposite() {
            Direction::Left => KeyState { arrow_left: true, ..no_keys() },
            Direction::Right => KeyState { arrow_right: true, ..no_keys() },
            Direction::Up => KeyState { arrow_up: true, ..no_keys() },
            Direction::Down => KeyState { arrow_down: true, ..no_keys() },
        };
        let mut buffer = InputBuffer::new();
        snake_movement_input(&keys, &mut buffer, &head, &state);
        assert_eq!(buffer.len(), 0);
    }
}

#[test]
fn input_rejects_the_opposite_of_the_last_queued_direction() {
    let state = playing_with_head_at(3, 3);
    let head = SnakeHead { direction: Direction::Right };
    let mut buffer = InputBuffer::new();
    buffer.queue_direction(Direction::Up);
    // The effective direction is the buffered Up, so Down would be a reversal.
    snake_movement_input(&KeyState { key_s: true, ..no_keys() }, &mut buffer, &head, &state);
    assert_eq!(buffer.len(), 1);
    assert_eq!(buffer.last_direction(), Some(Direction::Up));
}

#[test]
fn input_ignores_the_direction_already_in_effect() {
    let state = playing_with_head_at(3, 3);
    let head = SnakeHead { direction: Direction::Right };
    let mut buffer = InputBuffer::new();
    snake_movement_input(&KeyState { key_d: true, ..no_keys() }, &mut buffer, &head, &state);
    assert_eq!(buffer.len(), 0);
    buffer.queue_direction(Direction::Up);
    snake_movement_input(&KeyState { key_w: true, ..no_keys() }, &mut buffer, &head, &state);
    assert_eq!(drain(&mut buffer), vec![Direction::Up]);
}

#[test]
fn input_without_keys_queues_nothing() {
    let state = playing_with_head_at(3, 3);
    let head = SnakeHead { direction: Direction::Right };
    let mut buffer = InputBuffer::new();
    snake_movement_input(&no_keys(), &mut buffer, &head, &state);
    assert_eq!(buffer.len(), 0);
}

#[test]
fn input_allows_a_double_turn_between_two_steps() {
    // Right, then Up, then Left: the second turn is legal because it is
    // measured against the buffered Up, not against the head's Right.
    let state = playing_with_head_at(3, 3);
    let head = SnakeHead { direction: Direction::Right };
    let mut buffer = InputBuffer::new();
    snake_movement_input(&KeyState { arrow_up: true, ..no_keys() }, &mut buffer, &head, &state);
    snake_movement_input(&KeyState { arrow_left: true, ..no_keys() }, &mut buffer, &head, &state);
    assert_eq!(drain(&mut buffer), vec![Direction::Up, Direction::Left]);
}

#[test]
fn input_drops_a_third_turn() {
    let state = playing_with_head_at(3, 3);
    let head = SnakeHead { direction: Direction::Right };
    let mut buffer = InputBuffer::new();
    snake_movement_input(&KeyState { arrow_up: true, ..no_keys() }, &mut buffer, &head, &state);
    snake_movement_input(&KeyState { arrow_left: true, ..no_keys() }, &mut buffer, &head, &state);
    snake_movement_input(&KeyState { arrow_down: true, ..no_keys() }, &mut buffer, &head, &state);
    assert_eq!(drain(&mut buffer), vec![Direction::Up, Direction::Left]);
}

#[test]
fn input_is_ignored_outside_the_playing_phase() {
    let head = SnakeHead { direction: Direction::Right };
    for phase in [GamePhase::Menu, GamePhase::GameOver] {
        let mut state = playing_with_head_at(3, 3);
        state.phase = phase;
        let mut buffer = InputBuffer::new();
        snake_movement_input(&KeyState { arrow_up: true, ..no_keys() }, &mut buffer, &head, &state);
        assert_eq!(buffer.len(), 0);
    }
}

#[test]
fn input_is_ignored_without_a_head() {
    let mut state = playing_with_head_at(3, 3);
    state.snake_segments.clear();
    let head = SnakeHead { direction: Direction::Right };
    let mut buffer = InputBuffer::new();
    snake_movement_input(&KeyState { arrow_up: true, ..no_keys() }, &mut buffer, &head, &state);
    assert_eq!(buffer.len(), 0);
}
