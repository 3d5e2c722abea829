use terminal_snake::state::coords::Coords;
use terminal_snake::state::directions::Directions;

#[test]
pub fn coords_to_unsigned_tuple_returns_correct_coords() {
    let coords = Coords {
        x: 5,
        y: 5,
        facing: Directions::Up,
    };
    assert_eq!(coords.to_unsigned_tuple(), (5, 5));
}

#[test]
pub fn coords_to_unsigned_tuple_returns_x0_y0_if_minus_1() {
    let coords = Coords {
        x: -1,
        y: -1,
        facing: Directions::Up,
    };
    assert_eq!(coords.to_unsigned_tuple(), (0, 0));
}

#[test]
pub fn coords_to_unsigned_tuple_returns_x0_y0_if_signed() {
    let coords = Coords {
        x: -42,
        y: -42,
        facing: Directions::Up,
    };
    assert_eq!(coords.to_unsigned_tuple(), (0, 0));
}

#[test]
pub fn facing_coords_default_is_inactive_unset() {
    let coords = Coords::default();
    assert_eq!(coords.x, -1);
    assert_eq!(coords.y, -1);
    assert_eq!(coords.facing, Directions::Unset);
}
