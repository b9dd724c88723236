use rider::caret::CaretPosition;
use rider::editor::text_character::TextCharacter;
use rider::events::UpdateResult;
use rider::geometry::{move_render_point, Point, Rect};
use rider::themes::SerdeColor;
use rider::ui::UpdateContext;

fn rgb(r: u8, g: u8, b: u8) -> SerdeColor {
    SerdeColor::new(r, g, b, 255)
}

#[test]
fn must_return_moved_rect() {
    let rect = Rect::new(10, 20, 30, 40);
    let point = Point::new(11, 11);
    assert_eq!(move_render_point(point, &rect), Rect::new(21, 31, 30, 40));
}

// getters

#[test]
fn must_return_valid_is_last_in_line() {
    let widget = TextCharacter::new('\n', 0, 0, true, rgb(1, 12, 123));
    assert_eq!(widget.is_last_in_line(), true);
}

#[test]
fn must_return_true_for_is_new_line_if_new_line() {
    let widget = TextCharacter::new('\n', 0, 0, true, rgb(1, 12, 123));
    assert_eq!(widget.is_new_line(), true);
}

#[test]
fn must_return_false_for_is_new_line_if_new_line() {
    let widget = TextCharacter::new('W', 0, 0, true, rgb(1, 12, 123));
    assert_eq!(widget.is_new_line(), false);
}

#[test]
fn must_return_valid_position() {
    let widget = TextCharacter::new('\n', 1, 123, true, rgb(1, 12, 123));
    assert_eq!(widget.position(), 1);
}

#[test]
fn must_return_valid_line() {
    let widget = TextCharacter::new('\n', 1, 123, true, rgb(1, 12, 123));
    assert_eq!(widget.line(), 123);
}

#[test]
fn must_return_valid_text_character() {
    let widget = TextCharacter::new('\n', 87, 123, true, rgb(1, 12, 123));
    assert_eq!(widget.text_character(), '\n');
}

#[test]
fn text_character_must_return_valid_source() {
    let widget = TextCharacter::new('\n', 0, 0, true, rgb(1, 12, 123));
    assert_eq!(widget.source(), &Rect::new(0, 0, 0, 0));
}

#[test]
fn text_character_must_return_valid_dest() {
    let widget = TextCharacter::new('\n', 0, 0, true, rgb(1, 12, 123));
    assert_eq!(widget.dest(), &Rect::new(0, 0, 0, 0));
}

#[test]
fn text_character_must_return_valid_color() {
    let widget = TextCharacter::new('\n', 0, 0, true, rgb(1, 12, 123));
    assert_eq!(widget.color(), &rgb(1, 12, 123));
}

#[test]
fn has_no_texture_of_its_own() {
    let widget = TextCharacter::new('a', 0, 0, false, rgb(0, 0, 0));
    assert_eq!(widget.texture_path(), None);
}

// laying out

#[test]
fn text_character_must_update_position_of_new_line() {
    let mut widget = TextCharacter::new('\n', 0, 0, true, rgb(0, 0, 0));
    widget.set_dest(&Rect::new(10, 20, 30, 40));
    widget.set_source(&Rect::new(50, 60, 70, 80));
    let mut current = Rect::new(10, 23, 0, 0);
    widget.update_position(&mut current);
    assert_eq!(current, Rect::new(0, 103, 1, 1));
    assert_eq!(widget.dest(), &Rect::new(10, 23, 30, 40));
    assert_eq!(widget.source(), &Rect::new(50, 60, 70, 80));
}

#[test]
fn must_update_position_of_non_new_line() {
    let mut widget = TextCharacter::new('W', 0, 0, true, rgb(0, 0, 0));
    widget.set_dest(&Rect::new(10, 20, 30, 40));
    widget.set_source(&Rect::new(50, 60, 70, 80));
    let mut current = Rect::new(10, 23, 0, 0);
    widget.update_position(&mut current);
    assert_eq!(current, Rect::new(80, 23, 1, 1));
    assert_eq!(widget.dest(), &Rect::new(10, 23, 70, 80));
    assert_eq!(widget.source(), &Rect::new(50, 60, 70, 80));
}

#[test]
fn a_rectangle_is_never_empty() {
    assert_eq!(Rect::new(3, 4, 0, 0), Rect { x: 3, y: 4, width: 1, height: 1 });
    assert_eq!(Rect::new(0, 0, u32::MAX, 5).width, 1073741823);
    assert_eq!(Rect::new(i32::MAX, i32::MIN, 1, 1), Rect { x: 1073741823, y: -1073741824, width: 1, height: 1 });
    let mut r = Rect::new(0, 0, 5, 5);
    r.set_width(0);
    r.set_height(7);
    assert_eq!(r, Rect { x: 0, y: 0, width: 1, height: 7 });
}

// clicks

fn placed_widget() -> TextCharacter {
    let mut widget = TextCharacter::new('\n', 0, 0, true, rgb(0, 0, 0));
    widget.set_dest(&Rect::new(10, 20, 30, 40));
    widget.set_source(&Rect::new(50, 60, 70, 80));
    widget
}

#[test]
fn text_character_refute_when_not_click_target() {
    let widget = placed_widget();
    let point = Point::new(0, 0);
    let context = UpdateContext::Nothing;
    let result = widget.is_left_click_target(&point, &context);
    assert_eq!(result, false);
}

#[test]
fn text_character_assert_when_click_target() {
    let widget = placed_widget();
    let point = Point::new(20, 30);
    let context = UpdateContext::Nothing;
    let result = widget.is_left_click_target(&point, &context);
    assert_eq!(result, true);
}

#[test]
fn text_character_refute_when_not_click_target_because_parent() {
    let widget = placed_widget();
    let point = Point::new(20, 30);
    let context = UpdateContext::ParentPosition(Point::new(100, 100));
    let result = widget.is_left_click_target(&point, &context);
    assert_eq!(result, false);
}

#[test]
fn text_character_assert_when_click_target_because_parent() {
    let widget = placed_widget();
    let point = Point::new(120, 130);
    let context = UpdateContext::ParentPosition(Point::new(100, 100));
    let result = widget.is_left_click_target(&point, &context);
    assert_eq!(result, true);
}

#[test]
fn assert_on_click_return_move_caret() {
    let position = 1233;
    let line = 2893;
    let mut widget = TextCharacter::new('\n', position, line, true, rgb(0, 0, 0));
    let dest = Rect::new(10, 20, 30, 40);
    widget.set_dest(&dest);
    widget.set_source(&Rect::new(50, 60, 70, 80));

    let point = Point::new(12, 34);
    let context = UpdateContext::ParentPosition(Point::new(678, 293));
    let result = widget.on_left_click(&point, &context);
    let expected = UpdateResult::MoveCaret(dest, CaretPosition::new(position, line, 0));
    assert_eq!(result, expected);
}

#[test]
fn text_character_must_return_top_left_point() {
    let widget = placed_widget();
    let result = widget.render_start_point();
    let expected = Point::new(10, 20);
    assert_eq!(result, expected);
}

#[test]
fn assert_do_nothing() {
    let mut widget = placed_widget();
    let result = widget.update(3234, &UpdateContext::ParentPosition(Point::new(234, 234234)));
    let expected = UpdateResult::NoOp;
    assert_eq!(result, expected);
}
