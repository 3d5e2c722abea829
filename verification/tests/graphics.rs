use terminal_snake::engine::graphics::Graphics;
use terminal_snake::engine::snengine_error::SnengineError;

#[test]
pub fn is_valid_return_true_if_x_and_y_not_0() {
    let result = Graphics::is_valid(1, 1);
    let expected = Ok(true);
    assert_eq!(result, expected);
}

#[test]
pub fn is_valid_return_false_if_x_0() {
    let result = Graphics::is_valid(0, 1);
    let expected = Err(SnengineError::new("Cannot draw at 0, 1"));
    assert_eq!(result, expected);
}

#[test]
pub fn is_valid_return_false_if_y_0() {
    let result = Graphics::is_valid(1, 0);
    let expected = Err(SnengineError::new("Cannot draw at 1, 0"));
    assert_eq!(result, expected);
}

#[test]
pub fn is_valid_message_spells_out_large_numbers() {
    let result = Graphics::is_valid(0, 12345);
    match result {
        Err(e) => assert_eq!(e.text(), "Cannot draw at 0, 12345"),
        Ok(_) => panic!("a zero column must be rejected"),
    }
}

#[test]
pub fn is_valid_error_if_both_0() {
    let result = Graphics::is_valid(0, 0);
    let expected = Err(SnengineError::new("Cannot draw at 0, 0"));
    assert_eq!(result, expected);
}

#[test]
pub fn snengine_error_text_round_trip() {
    let e = SnengineError::new("something broke");
    assert_eq!(e.text(), "something broke");
    assert_eq!(e, SnengineError::new("something broke"));
    assert_ne!(e, SnengineError::new("something else broke"));
}
