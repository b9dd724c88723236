use rider::caret::CaretPosition;

#[test]
fn caret_position_assert_text_position() {
    let target = CaretPosition::new(1, 2, 3);
    let result = target.text_position();
    let expected = 1;
    assert_eq!(result, expected);
}

#[test]
fn caret_position_assert_line_number() {
    let target = CaretPosition::new(1, 2, 3);
    let result = target.line_number();
    let expected = 2;
    assert_eq!(result, expected);
}

#[test]
fn caret_position_assert_line_position() {
    let target = CaretPosition::new(1, 2, 3);
    let result = target.line_position();
    let expected = 3;
    assert_eq!(result, expected);
}

#[test]
fn assert_moved() {
    let target = CaretPosition::new(1, 2, 3);
    let result = target.moved(1, 2, 3);
    let expected = CaretPosition::new(2, 4, 6);
    assert_eq!(result, expected);
}

#[test]
fn caret_position_assert_set_text_position() {
    let mut target = CaretPosition::new(1, 2, 3);
    target.set_text_position(100);
    let result = target.text_position();
    let expected = 100;
    assert_eq!(result, expected);
}

#[test]
fn caret_position_assert_set_line_number() {
    let mut target = CaretPosition::new(1, 2, 3);
    target.set_line_number(200);
    let result = target.line_number();
    let expected = 200;
    assert_eq!(result, expected);
}

#[test]
fn caret_position_assert_set_line_position() {
    let mut target = CaretPosition::new(1, 2, 3);
    target.set_line_position(300);
    let result = target.line_position();
    let expected = 300;
    assert_eq!(result, expected);
}

#[test]
fn moved_backwards_and_reset() {
    let mut target = CaretPosition::new(5, 2, 3);
    assert_eq!(target.moved(-1, -2, -3), CaretPosition::new(4, 0, 0));
    assert!(!target.is_first());
    target.reset();
    assert_eq!(target, CaretPosition::new(0, 0, 0));
    assert!(target.is_first());
    assert!(!CaretPosition::new(0, 1, 0).is_first());
}
