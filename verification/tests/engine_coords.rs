use terminal_snake::engine::coords::Coords;

#[test]
pub fn to_unsigned_tuple_returns_correct_coords() {
    let coords = Coords { x: 5, y: 5 };

    assert_eq!(coords.to_unsigned_tuple(), (5, 5));
}

#[test]
pub fn to_unsigned_tuple_returns_x0_y0_if_minus_1() {
    let coords = Coords { x: -1, y: -1 };

    assert_eq!(coords.to_unsigned_tuple(), (0, 0));
}

#[test]
pub fn to_unsigned_tuple_returns_x0_y0_if_signed() {
    let coords = Coords { x: -42, y: -42 };

    assert_eq!(coords.to_unsigned_tuple(), (0, 0));
}

#[test]
pub fn is_active_return_true_if_above_minus_1() {
    let coords = Coords::new(1, 1);
    assert_eq!(coords.is_active(), true);
}

#[test]
pub fn is_active_return_true_if_0() {
    let coords = Coords::new(0, 0);
    assert_eq!(coords.is_active(), true);
}

#[test]
pub fn is_active_return_false_if_minus_1() {
    let coords = Coords::new(-1, -1);
    assert_eq!(coords.is_active(), false);
}

#[test]
pub fn is_active_return_false_if_below_minus_1() {
    let coords = Coords::new(-42, -44);
    assert_eq!(coords.is_active(), false);
}

#[test]
pub fn is_active_mixed_sign_is_false() {
    assert_eq!(Coords::new(3, -1).is_active(), false);
    assert_eq!(Coords::new(-1, 3).is_active(), false);
}

#[test]
pub fn to_unsigned_tuple_mixed_sign_is_origin() {
    assert_eq!(Coords::new(7, -3).to_unsigned_tuple(), (0, 0));
    assert_eq!(Coords::new(-3, 7).to_unsigned_tuple(), (0, 0));
}

#[test]
pub fn to_unsigned_tuple_handles_the_largest_grid_cell() {
    let coords = Coords::new(i16::MAX, i16::MAX);
    assert_eq!(coords.to_unsigned_tuple(), (32767, 32767));
    assert!(coords.is_active());
}

#[test]
pub fn default_coords_are_the_sentinel() {
    let coords = Coords::default();
    assert_eq!(coords.x, -1);
    assert_eq!(coords.y, -1);
    assert_eq!(coords.is_active(), false);
}
