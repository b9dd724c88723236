use rider::config::scroll_config::ScrollConfig;
use rider::config::settings::Config;
use rider::geometry::Rect;
use rider::ui::scroll_bar::{bar_location_of, bars_fit_of, step_fits_of, HorizontalScrollBar, VerticalScrollBar};

fn build_config() -> Config {
    Config::new()
}

// horizontal bar

#[test]
fn horizontal_scroll_bar_assert_scroll_to() {
    let config = build_config();
    let mut widget = HorizontalScrollBar::new(&config);
    let old = widget.scroll_value();
    widget.scroll_to(157);
    let current = widget.scroll_value();
    assert_ne!(old, current);
    assert_eq!(current, 157);
}

#[test]
fn horizontal_scroll_bar_assert_scroll_value() {
    let config = build_config();
    let widget = HorizontalScrollBar::new(&config);
    assert_eq!(widget.scroll_value(), 0);
}

#[test]
fn horizontal_scroll_bar_assert_set_viewport() {
    let config = build_config();
    let mut widget = HorizontalScrollBar::new(&config);
    let old = widget.viewport();
    widget.set_viewport(157);
    let current = widget.viewport();
    assert_ne!(old, current);
    assert_eq!(current, 157);
}

#[test]
fn horizontal_scroll_bar_assert_set_full_size() {
    let config = build_config();
    let mut widget = HorizontalScrollBar::new(&config);
    let old = widget.full();
    widget.set_full_size(157);
    let current = widget.full();
    assert_ne!(old, current);
    assert_eq!(current, 157);
}

#[test]
fn horizontal_scroll_bar_assert_set_location() {
    let config = build_config();
    let mut widget = HorizontalScrollBar::new(&config);
    let old = widget.rect().y;
    widget.set_location(157);
    let current = widget.rect().y;
    assert_ne!(old, current);
    assert_eq!(current, 157);
}

// vertical bar

#[test]
fn vertical_scroll_bar_assert_scroll_to() {
    let config = build_config();
    let mut widget = VerticalScrollBar::new(&config);
    let old = widget.scroll_value();
    widget.scroll_to(157);
    let current = widget.scroll_value();
    assert_ne!(old, current);
    assert_eq!(current, 157);
}

#[test]
fn vertical_scroll_bar_assert_scroll_value() {
    let config = build_config();
    let widget = VerticalScrollBar::new(&config);
    assert_eq!(widget.scroll_value(), 0);
}

#[test]
fn vertical_scroll_bar_assert_set_viewport() {
    let config = build_config();
    let mut widget = VerticalScrollBar::new(&config);
    let old = widget.viewport();
    widget.set_viewport(157);
    let current = widget.viewport();
    assert_ne!(old, current);
    assert_eq!(current, 157);
}

#[test]
fn vertical_scroll_bar_assert_set_full_size() {
    let config = build_config();
    let mut widget = VerticalScrollBar::new(&config);
    let old = widget.full_height();
    widget.set_full_size(157);
    let current = widget.full_height();
    assert_ne!(old, current);
    assert_eq!(current, 157);
}

#[test]
fn vertical_scroll_bar_assert_set_location() {
    let config = build_config();
    let mut widget = VerticalScrollBar::new(&config);
    let old = widget.rect().x;
    widget.set_location(157);
    let current = widget.rect().x;
    assert_ne!(old, current);
    assert_eq!(current, 157);
}

// steps, ends and fitting

#[test]
fn new_bar_is_as_wide_as_configured() {
    let config = build_config();
    let widget = VerticalScrollBar::new(&config);
    assert_eq!(*widget.rect(), Rect::new(0, 0, 4, 0));
    assert_eq!((widget.viewport(), widget.full_height()), (1, 1));
}

#[test]
fn step_moves_by_speed_times_step() {
    let config = build_config();
    let mut widget = VerticalScrollBar::new(&config);
    widget.step(30, 2);
    assert_eq!(widget.scroll_value(), 60);
}

#[test]
fn step_below_zero_stays() {
    let config = build_config();
    let mut widget = VerticalScrollBar::new(&config);
    widget.step(30, 1);
    widget.step(30, -2);
    assert_eq!(widget.scroll_value(), 30);
    widget.step(30, -1);
    assert_eq!(widget.scroll_value(), 0);
}

#[test]
fn step_past_the_end_stays() {
    let config = build_config();
    let mut widget = HorizontalScrollBar::new(&config);
    widget.set_viewport(100);
    widget.set_full_size(150);
    widget.step(30, 1);
    assert_eq!(widget.scroll_value(), 30);
    assert!(!widget.scrolled_past());
    widget.step(30, 1);
    assert_eq!(widget.scroll_value(), 30);
    widget.scroll_to(51);
    assert!(widget.scrolled_past());
    widget.scroll_to(-50);
    assert!(!widget.scrolled_past());
}

#[test]
fn reset_goes_back_to_the_start() {
    let config = build_config();
    let mut widget = VerticalScrollBar::new(&config);
    widget.set_full_size(500);
    widget.scroll_to(40);
    widget.update_rect(7, 9);
    widget.reset();
    assert_eq!(widget.scroll_value(), 0);
    assert_eq!(widget.full_height(), 0);
    assert_eq!((widget.rect().y, widget.rect().height), (0, 1));
}

#[test]
fn handle_needs_content_as_large_as_the_viewport() {
    let config = build_config();
    let mut widget = VerticalScrollBar::new(&config);
    widget.set_viewport(100);
    widget.set_full_size(20);
    assert!(!widget.bar().has_handle());
    widget.set_full_size(100);
    assert!(widget.bar().has_handle());
}

#[test]
fn location_is_in_from_the_far_edge() {
    let scroll = ScrollConfig::new();
    assert_eq!(bar_location_of(100, &scroll), 100 - (4 + 5));
    assert!(bars_fit_of(&Rect::new(0, 0, 100, 200), &scroll));
    let wide = ScrollConfig { width: 4, margin_right: i32::MAX, speed: 30 };
    assert!(!bars_fit_of(&Rect::new(0, 0, 100, 200), &wide));
}

#[test]
fn step_fits_checks_the_range() {
    assert!(step_fits_of(0, 30, 10));
    assert!(!step_fits_of(0, i32::MAX, 2));
    assert!(!step_fits_of(i32::MAX, 1, 1));
    assert!(step_fits_of(i32::MAX, 1, -1));
}

#[test]
fn step_back_returns() {
    let config = build_config();
    let mut widget = VerticalScrollBar::new(&config);
    widget.set_viewport(100);
    widget.set_full_size(300);
    widget.step(30, 2);
    assert_eq!(widget.scroll_value(), 60);
    widget.step(30, -2);
    assert_eq!(widget.scroll_value(), 0);
}
