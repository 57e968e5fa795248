use snake::food::{cell_of, random_cell, scale};
use snake::game::Game;
use snake::grid::Position;

fn at(x: i32, y: i32) -> Position {
    Position { x, y }
}

#[test]
fn scale_rounds_the_fraction_down() {
    assert_eq!(scale(0, 10), 0);
    assert_eq!(scale(u32::MAX, 10), 9);
    assert_eq!(scale(1 << 31, 10), 5);
    assert_eq!(scale((1 << 31) - 1, 10), 4);
    assert_eq!(scale(429_496_729, 10), 0);
    assert_eq!(scale(429_496_730, 10), 1);
    assert_eq!(scale(1 << 30, 4), 1);
    assert_eq!(scale(u32::MAX, 1), 0);
    assert_eq!(scale(u32::MAX, u32::MAX), u32::MAX - 1);
    assert_eq!(scale(u32::MAX, 0), 0);
    assert_eq!(scale(0, 0), 0);
}

#[test]
fn two_numbers_pick_column_and_row() {
    assert_eq!(cell_of(0, 0), at(0, 0));
    assert_eq!(cell_of(u32::MAX, u32::MAX), at(9, 9));
    assert_eq!(cell_of(1 << 31, 0), at(5, 0));
    assert_eq!(cell_of(0, 1 << 31), at(0, 5));
    assert_eq!(cell_of(429_496_730, 3_865_470_567), at(1, 9));
    assert_eq!(cell_of(3_865_470_566, 858_993_459), at(8, 1));
    assert_eq!(cell_of(858_993_460, 429_496_729), at(2, 0));
}

#[test]
fn a_random_cell_is_in_the_arena() {
    let mut seen = std::collections::HashSet::new();
    for _ in 0..2000 {
        let p = random_cell();
        assert!(p.is_in_arena());
        seen.insert((p.x, p.y));
    }
    assert!(seen.len() > 1);
}

#[test]
fn food_goes_on_the_first_cell_if_it_is_free() {
    let mut game = Game::new();
    game.place_food(at(1, 1), at(2, 2));
    let mut expected = Game::new();
    expected.food = Some(at(1, 1));
    assert_eq!(game, expected);
}

#[test]
fn food_goes_on_the_second_cell_if_the_snake_holds_the_first() {
    let mut game = Game::new();
    game.place_food(at(5, 5), at(2, 2));
    assert_eq!(game.food, Some(at(2, 2)));
    let mut game = Game::new();
    game.place_food(at(5, 4), at(0, 9));
    assert_eq!(game.food, Some(at(0, 9)));
}

#[test]
fn the_second_cell_is_taken_even_under_the_snake() {
    let mut game = Game::new();
    game.place_food(at(5, 5), at(5, 4));
    assert_eq!(game.food, Some(at(5, 4)));
    let mut game = Game::new();
    game.place_food(at(5, 5), at(5, 5));
    assert_eq!(game.food, Some(at(5, 5)));
}

#[test]
fn food_on_the_grid_is_left_alone() {
    let mut game = Game::new();
    game.food = Some(at(3, 3));
    let before = game.clone();
    game.place_food(at(1, 1), at(2, 2));
    assert_eq!(game, before);
    game.spawn_food();
    assert_eq!(game, before);
}

#[test]
fn the_spawner_puts_food_in_the_arena_and_changes_nothing_else() {
    for _ in 0..500 {
        let mut game = Game::new();
        game.score = 4;
        game.spawn_food();
        let food = game.food.expect("food on the grid");
        assert!(food.is_in_arena());
        game.food = None;
        let mut expected = Game::new();
        expected.score = 4;
        assert_eq!(game, expected);
    }
}

#[test]
fn the_spawner_mostly_misses_the_snake() {
    let mut under_the_snake = 0;
    for _ in 0..1000 {
        let mut game = Game::new();
        game.spawn_food();
        if game.occupies(game.food.expect("food on the grid")) {
            under_the_snake += 1;
        }
    }
    assert!(under_the_snake < 20);
}
