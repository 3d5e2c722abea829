use terminal_snake::engine::graphics::Graphics;
use terminal_snake::engine::unicode::Unicode;
use terminal_snake::engine::unicode_character::UnicodeCharacter;
use terminal_snake::state::directions::Directions;
use terminal_snake::state::snake::Snake;
use terminal_snake::state::snake_coords::SnakeCoords;

#[test]
fn unicode_to_char_matches_the_table() {
    assert_eq!(Unicode::Space.to_char(), ' ');
    assert_eq!(Unicode::HeavyCircleWithCircleInside.to_char(), '\u{2B57}');
    assert_eq!(Unicode::BoxDoubleHorizontal.to_char(), '\u{2550}');
    assert_eq!(Unicode::BoxDoubleVertical.to_char(), '\u{2551}');
    assert_eq!(Unicode::BoxDoubleDownAndRight.to_char(), '\u{2554}');
    assert_eq!(Unicode::BoxDoubleDownAndLeft.to_char(), '\u{2557}');
    assert_eq!(Unicode::BoxDoubleUpAndRight.to_char(), '\u{255A}');
    assert_eq!(Unicode::BoxDoubleUpAndLeft.to_char(), '\u{255D}');
    assert_eq!(Unicode::BoxLightArcDownAndLeft.to_char(), '\u{256E}');
    assert_eq!(Unicode::BoxLightArcUpAndLeft.to_char(), '\u{256F}');
    assert_eq!(Unicode::BoxLightArcUpAndRight.to_char(), '\u{2570}');
    assert_eq!(Unicode::BoxLightArcDownAndRight.to_char(), '\u{256D}');
    assert_eq!(Unicode::BoxLightHorizontal.to_char(), '\u{2500}');
    assert_eq!(Unicode::BoxLightVertical.to_char(), '\u{2502}');
}

#[test]
fn unicode_character_to_char_matches_the_table() {
    assert_eq!(UnicodeCharacter::HeavyCircleWithCircleInside.to_char(), '\u{2B57}');
    assert_eq!(UnicodeCharacter::BoxDoubleHorizontal.to_char(), '\u{2550}');
    assert_eq!(UnicodeCharacter::BoxDoubleVertical.to_char(), '\u{2551}');
    assert_eq!(UnicodeCharacter::BoxDoubleDownAndRight.to_char(), '\u{2554}');
    assert_eq!(UnicodeCharacter::BoxDoubleDownAndLeft.to_char(), '\u{2557}');
    assert_eq!(UnicodeCharacter::BoxDoubleUpAnRight.to_char(), '\u{255A}');
    assert_eq!(UnicodeCharacter::BoxDoubleUpAndLeft.to_char(), '\u{255D}');
}

#[test]
fn corner_table_covers_the_four_turns() {
    // The four 90-degree turn pairs, each from both approaches.
    assert_eq!(
        Graphics::snake_glyph(&Directions::Down, &Directions::Left),
        Unicode::BoxDoubleDownAndRight
    );
    assert_eq!(
        Graphics::snake_glyph(&Directions::Right, &Directions::Up),
        Unicode::BoxDoubleDownAndRight
    );
    assert_eq!(
        Graphics::snake_glyph(&Directions::Up, &Directions::Left),
        Unicode::BoxDoubleUpAndRight
    );
    assert_eq!(
        Graphics::snake_glyph(&Directions::Right, &Directions::Down),
        Unicode::BoxDoubleUpAndRight
    );
    assert_eq!(
        Graphics::snake_glyph(&Directions::Down, &Directions::Right),
        Unicode::BoxDoubleDownAndLeft
    );
    assert_eq!(
        Graphics::snake_glyph(&Directions::Left, &Directions::Up),
        Unicode::BoxDoubleDownAndLeft
    );
    assert_eq!(
        Graphics::snake_glyph(&Directions::Left, &Directions::Down),
        Unicode::BoxDoubleUpAndLeft
    );
    assert_eq!(
        Graphics::snake_glyph(&Directions::Up, &Directions::Right),
        Unicode::BoxDoubleUpAndLeft
    );
}

#[test]
fn straight_runs_pick_pipes() {
    assert_eq!(
        Graphics::snake_glyph(&Directions::Left, &Directions::Left),
        Unicode::BoxDoubleHorizontal
    );
    assert_eq!(
        Graphics::snake_glyph(&Directions::Right, &Directions::Right),
        Unicode::BoxDoubleHorizontal
    );
    assert_eq!(
        Graphics::snake_glyph(&Directions::Up, &Directions::Up),
        Unicode::BoxDoubleVertical
    );
    assert_eq!(
        Graphics::snake_glyph(&Directions::Down, &Directions::Down),
        Unicode::BoxDoubleVertical
    );
    assert_eq!(
        Graphics::snake_glyph(&Directions::Unset, &Directions::Unset),
        Unicode::BoxDoubleVertical
    );
}

#[test]
fn corner_table_is_stable_across_queries() {
    // Re-querying with the same pair always yields the same glyph.
    for previous in [
        Directions::Unset,
        Directions::Up,
        Directions::Down,
        Directions::Left,
        Directions::Right,
    ] {
        for current in [
            Directions::Unset,
            Directions::Up,
            Directions::Down,
            Directions::Left,
            Directions::Right,
        ] {
            let first = Graphics::snake_glyph(&previous, &current);
            let second = Graphics::snake_glyph(&previous, &current);
            assert_eq!(first, second);
        }
    }
}

#[test]
fn render_cells_pick_corner_glyphs_at_turns() {
    let snake = Snake {
        positions: vec![
            SnakeCoords::new(5, 5, Directions::Up, true),
            SnakeCoords::new(5, 6, Directions::Up, true),
            SnakeCoords::new(6, 6, Directions::Left, true),
        ],
        direction: Directions::Up,
        x_x: false,
    };
    let cells = snake.render_cells();
    assert_eq!(cells.len(), 3);
    assert_eq!(cells[0], (5, 5, Unicode::BoxDoubleVertical));
    assert_eq!(cells[1], (5, 6, Unicode::BoxDoubleVertical));
    assert_eq!(cells[2], (6, 6, Unicode::BoxDoubleUpAndRight));
}

#[test]
fn render_cells_skip_off_screen_blocks() {
    let snake = Snake::new();
    // A fresh snake's sentinel head renders at the off-limits cell and is
    // skipped entirely.
    assert_eq!(snake.render_cells().len(), 0);
}
