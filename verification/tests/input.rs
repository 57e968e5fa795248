use snake::direction::Direction;
use snake::game::Game;
use snake::input::Keys;

const NONE: Keys = Keys { left: false, right: false, up: false, down: false };

fn only(d: Direction) -> Keys {
    match d {
        Direction::Left => Keys { left: true, ..NONE },
        Direction::Right => Keys { right: true, ..NONE },
        Direction::Up => Keys { up: true, ..NONE },
        Direction::Down => Keys { down: true, ..NONE },
    }
}

#[test]
fn no_key_asks_for_the_current_direction() {
    for d in [Direction::Left, Direction::Up, Direction::Right, Direction::Down] {
        assert_eq!(NONE.candidate(d), d);
    }
}

#[test]
fn one_key_asks_for_its_direction() {
    for d in [Direction::Left, Direction::Up, Direction::Right, Direction::Down] {
        assert_eq!(only(d).candidate(Direction::Up), d);
        assert_eq!(only(d).candidate(Direction::Left), d);
    }
}

#[test]
fn keys_are_read_in_the_order_left_right_up_down() {
    let all = Keys { left: true, right: true, up: true, down: true };
    assert_eq!(all.candidate(Direction::Down), Direction::Left);
    let no_left = Keys { left: false, right: true, up: true, down: true };
    assert_eq!(no_left.candidate(Direction::Down), Direction::Right);
    let vertical = Keys { left: false, right: false, up: true, down: true };
    assert_eq!(vertical.candidate(Direction::Left), Direction::Up);
    let left_down = Keys { left: true, right: false, up: false, down: true };
    assert_eq!(left_down.candidate(Direction::Up), Direction::Left);
}

#[test]
fn a_turn_to_the_side_is_latched() {
    let mut game = Game::new();
    game.snake_movement_input(only(Direction::Left));
    assert_eq!(game.last_input, Some(Direction::Left));
    let mut expected = Game::new();
    expected.last_input = Some(Direction::Left);
    assert_eq!(game, expected);

    let mut game = Game::new();
    game.snake_movement_input(only(Direction::Right));
    assert_eq!(game.last_input, Some(Direction::Right));
}

#[test]
fn the_reverse_of_the_direction_is_not_latched() {
    let mut game = Game::new();
    game.snake_movement_input(only(Direction::Down));
    assert_eq!(game, Game::new());
}

#[test]
fn the_direction_itself_is_not_latched() {
    let mut game = Game::new();
    game.snake_movement_input(only(Direction::Up));
    assert_eq!(game, Game::new());
    game.snake_movement_input(NONE);
    assert_eq!(game, Game::new());
}

#[test]
fn a_full_latch_takes_no_second_turn() {
    let mut game = Game::new();
    game.snake_movement_input(only(Direction::Left));
    game.snake_movement_input(only(Direction::Right));
    assert_eq!(game.last_input, Some(Direction::Left));
}

#[test]
fn the_movement_step_empties_the_latch() {
    let mut game = Game::new();
    game.snake_movement_input(only(Direction::Left));
    game.snake_movement();
    assert_eq!(game.last_input, None);
    assert_eq!(game.direction, Direction::Left);
    game.snake_movement_input(only(Direction::Down));
    assert_eq!(game.last_input, Some(Direction::Down));
}

#[test]
fn the_latch_goes_by_the_direction_not_by_the_pending_turn() {
    let mut game = Game::new();
    game.direction = Direction::Right;
    game.snake_movement_input(only(Direction::Left));
    assert_eq!(game.last_input, None);
    game.snake_movement_input(only(Direction::Up));
    assert_eq!(game.last_input, Some(Direction::Up));
    game.snake_movement_input(only(Direction::Down));
    assert_eq!(game.last_input, Some(Direction::Up));
}

#[test]
fn nothing_is_latched_without_a_snake() {
    let mut game = Game::new();
    game.body.clear();
    let before = game.clone();
    game.snake_movement_input(only(Direction::Left));
    assert_eq!(game, before);
}
