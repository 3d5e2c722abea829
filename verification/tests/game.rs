use terminal_snake::engine::coords::Coords;
use terminal_snake::engine::inputhandler::InputHandler;
use terminal_snake::state::arena::Arena;
use terminal_snake::state::directions::Directions;
use terminal_snake::state::food::Food;
use terminal_snake::state::gamestate::GameState;
use terminal_snake::state::snake_coords::SnakeCoords;

fn state_with_level() -> GameState {
    let mut state = GameState::new();
    state.c_dimensions = Coords::new(40, 20);
    Arena::create_level_1(state)
}

#[test]
fn new_game_state_is_empty() {
    let state = GameState::new();
    assert_eq!(state.score, 0);
    assert_eq!(state.snake.positions.len(), 1);
    assert_eq!(state.snake.direction, Directions::Unset);
    assert_eq!(state.arena.positions.len(), 0);
    assert_eq!(state.food.positions.len(), 3);
    for c in state.food.positions {
        assert!(!c.is_active());
    }
}

#[test]
fn place_snake_middle_centres_the_head() {
    let state = state_with_level();
    match state.place_snake_middle() {
        Ok(state) => {
            assert_eq!(state.snake.positions[0].coords.x, 10);
            assert_eq!(state.snake.positions[0].coords.y, 5);
            assert_eq!(state.snake.positions.len(), 1);
        }
        Err(_) => panic!("a populated arena has a middle"),
    }
}

#[test]
fn place_snake_middle_errs_without_an_arena() {
    let state = GameState::new();
    assert!(matches!(state.place_snake_middle(), Err(_)));
}

#[test]
fn resolve_collisions_kills_on_a_wall() {
    let mut state = state_with_level();
    state.snake.positions = vec![SnakeCoords::new(1, 3, Directions::Left, true)];
    let (state, eaten) = state.resolve_collisions();
    assert!(state.snake.x_x);
    assert!(!eaten);
    assert_eq!(state.score, 0);
}

#[test]
fn resolve_collisions_kills_on_the_own_body() {
    let mut state = state_with_level();
    state.snake.positions = vec![
        SnakeCoords::new(10, 5, Directions::Up, true),
        SnakeCoords::new(10, 5, Directions::Up, true),
    ];
    let (state, _) = state.resolve_collisions();
    assert!(state.snake.x_x);
}

#[test]
fn resolve_collisions_scores_on_food() {
    let mut state = state_with_level();
    state.snake.positions = vec![SnakeCoords::new(10, 5, Directions::Up, true)];
    state.food.positions[0] = Coords::new(10, 5);
    let (state, eaten) = state.resolve_collisions();
    assert!(eaten);
    assert_eq!(state.score, 1);
    assert!(!state.snake.x_x);
}

#[test]
fn resolve_collisions_ignores_inactive_food() {
    let mut state = state_with_level();
    state.snake.positions = vec![SnakeCoords::new(-1, -1, Directions::Up, true)];
    // All food slots are the inactive sentinel (-1, -1): no score, even
    // though the head coordinate matches the sentinel.
    let (state, eaten) = state.resolve_collisions();
    assert!(!eaten);
    assert_eq!(state.score, 0);
}

#[test]
fn new_random_places_food_off_the_snake() {
    let mut state = state_with_level();
    state.snake.positions = vec![SnakeCoords::new(10, 5, Directions::Up, true)];
    match Food::new_random(state, 1) {
        Ok(state) => {
            let food = state.food.positions[0];
            assert!(food.x >= 2 && food.x <= 18);
            assert!(food.y >= 4 && food.y <= 8);
            assert!(!(food.x == 10 && food.y == 5));
            // The other slots stay untouched.
            assert!(!state.food.positions[1].is_active());
            assert!(!state.food.positions[2].is_active());
        }
        Err(_) => panic!("a nearly empty arena has room for food"),
    }
}

#[test]
fn new_random_always_succeeds_on_a_free_rectangle() {
    // A fresh snake sits at the sentinel, outside the draw rectangle, so
    // the first draw is accepted whatever the clock gave.
    let state = state_with_level();
    match Food::new_random(state, 1) {
        Ok(state) => {
            let food = state.food.positions[0];
            assert!(food.x >= 2 && food.x <= 18);
            assert!(food.y >= 4 && food.y <= 8);
        }
        Err(_) => panic!("a free draw rectangle guarantees placement"),
    }
}

#[test]
fn new_random_errs_without_an_arena() {
    let state = GameState::new();
    assert!(matches!(Food::new_random(state, 1), Err(_)));
}

#[test]
fn new_random_errs_when_the_arena_is_too_small() {
    // A one-cell arena leaves no interior to draw food from.
    let mut state = GameState::new();
    state.arena.positions.push((
        Coords::new(2, 2),
        terminal_snake::engine::unicode::Unicode::BoxLightVertical,
    ));
    assert!(matches!(Food::new_random(state, 1), Err(_)));
}

#[test]
fn new_random_errs_when_count_exceeds_the_bank() {
    let state = state_with_level();
    assert!(matches!(Food::new_random(state, 4), Err(_)));
    let state = state_with_level();
    assert!(matches!(Food::new_random(state, -1), Err(_)));
}

#[test]
fn food_is_at_only_reports_active_items() {
    let mut state = GameState::new();
    assert!(!state.food.is_at(Coords::new(-1, -1)));
    state.food.positions[0] = Coords::new(6, 7);
    assert!(state.food.is_at(Coords::new(6, 7)));
    assert!(!state.food.is_at(Coords::new(7, 6)));
}

#[test]
fn arrow_keys_turn_the_snake() {
    let mut state = GameState::new();
    state.snake.direction = Directions::Up;

    let state = InputHandler::apply_input(state, &[0x1b, 0x5b, 0x44]);
    assert_eq!(state.snake.direction, Directions::Left);

    let state = InputHandler::apply_input(state, &[0x1b, 0x5b, 0x41]);
    assert_eq!(state.snake.direction, Directions::Up);

    let state = InputHandler::apply_input(state, &[0x1b, 0x5b, 0x43]);
    assert_eq!(state.snake.direction, Directions::Right);

    let state = InputHandler::apply_input(state, &[0x1b, 0x5b, 0x42]);
    assert_eq!(state.snake.direction, Directions::Down);
}

#[test]
fn reversals_are_silently_ignored() {
    let mut state = GameState::new();
    state.snake.direction = Directions::Right;
    let state = InputHandler::apply_input(state, &[0x1b, 0x5b, 0x44]);
    assert_eq!(state.snake.direction, Directions::Right);

    let mut state = GameState::new();
    state.snake.direction = Directions::Down;
    let state = InputHandler::apply_input(state, &[0x1b, 0x5b, 0x41]);
    assert_eq!(state.snake.direction, Directions::Down);
}

#[test]
fn unrecognised_input_changes_nothing() {
    let mut state = GameState::new();
    state.snake.direction = Directions::Left;
    let state = InputHandler::apply_input(state, &[0x1b, 0x5b, 0x7a]);
    assert_eq!(state.snake.direction, Directions::Left);
    let state = InputHandler::apply_input(state, &[0, 0, 0]);
    assert_eq!(state.snake.direction, Directions::Left);
}

#[test]
fn direction_opposites_pair_up() {
    assert_eq!(Directions::Up.opposite(), Directions::Down);
    assert_eq!(Directions::Down.opposite(), Directions::Up);
    assert_eq!(Directions::Left.opposite(), Directions::Right);
    assert_eq!(Directions::Right.opposite(), Directions::Left);
    assert_eq!(Directions::Unset.opposite(), Directions::Unset);
}
