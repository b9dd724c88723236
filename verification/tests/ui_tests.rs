use std::cell::Cell;
use std::rc::Rc;

use rider::config::settings::Config;
use rider::config::ConfigHolder;
use rider::events::UpdateResult;
use rider::geometry::{Point, Rect};
use rider::renderer::{FontDetails, ResourceLoader, ResourceManager};
use rider::themes::{build_theme, SerdeColor};
use rider::ui::buttons::{SaveButton, SettingsButton};
use rider::ui::menu_bar::MenuBar;
use rider::ui::{build_font_details, RenderContext, UpdateContext};

fn build_config() -> Config {
    let mut config = Config::new();
    config.set_theme(build_theme());
    config
}

struct ConfigWrapper {
    inner: Config,
}

impl ConfigHolder for ConfigWrapper {
    fn held_config(&self) -> Config {
        self.inner.clone()
    }

    fn config(&self) -> &Config {
        &self.inner
    }
}

#[test]
fn must_build_font_details() {
    let config = build_config();
    let wrapper = ConfigWrapper { inner: config.clone() };
    let details = build_font_details(&wrapper);
    let c = &config;
    assert_eq!(details.path, c.editor_config().font_path().to_string());
    assert_eq!(details.size, c.editor_config().character_size());
}

#[test]
fn settings_hold_their_own_font() {
    let config = build_config();
    let details = build_font_details(&config);
    assert_eq!(details.path, config.editor_config().font_path().to_string());
    assert_eq!(details.size, config.editor_config().character_size());
}

// where the menu bar draws its buttons

#[test]
fn assert_save_button_child() {
    let config = build_config();
    let mut widget = MenuBar::new(&config);
    widget.prepare_ui(&config);
    assert_eq!(widget.save_button_rect(&RenderContext::Nothing), Rect::new(16, 10, 16, 16));
}

#[test]
fn assert_settings_button() {
    let config = build_config();
    let mut widget = MenuBar::new(&config);
    widget.prepare_ui(&config);
    assert_eq!(widget.settings_button_rect(&RenderContext::Nothing), Rect::new(32, 10, 16, 16));
}

#[test]
fn menu_bar_assert_update() {
    let config = build_config();
    let mut widget = MenuBar::new(&config);
    widget.prepare_ui(&config);
    let result = widget.update(&config);
    assert_eq!(result, UpdateResult::NoOp);
}

#[test]
fn assert_background_color() {
    let config = build_config();
    let widget = MenuBar::new(&config);
    let result = widget.background_color().clone();
    let expected = SerdeColor::new(18, 18, 18, 0);
    assert_eq!(result, expected);
}

#[test]
fn menu_bar_assert_dest() {
    let config = build_config();
    let (w, h) = (config.width() as u32, config.menu_height() as u32);
    let widget = MenuBar::new(&config);
    let result = widget.dest().clone();
    let expected = Rect::new(0, 0, w, h);
    assert_eq!(result, expected);
}

#[test]
fn menu_bar_must_return_top_left_point() {
    let config = build_config();
    let widget = MenuBar::new(&config);
    let result = widget.render_start_point();
    let expected = Point::new(0, 0);
    assert_eq!(result, expected);
}

#[test]
fn menu_bar_refute_when_not_click_target() {
    let config = build_config();
    let widget = MenuBar::new(&config);
    let point = Point::new(9999, 9999);
    let context = UpdateContext::Nothing;
    let result = widget.is_left_click_target(&point, &context);
    assert_eq!(result, false);
}

#[test]
fn menu_bar_assert_when_click_target() {
    let config = build_config();
    let widget = MenuBar::new(&config);
    let point = Point::new(20, 30);
    let context = UpdateContext::Nothing;
    let result = widget.is_left_click_target(&point, &context);
    assert_eq!(result, true);
}

#[test]
fn menu_bar_refute_when_not_click_target_because_parent() {
    let config = build_config();
    let widget = MenuBar::new(&config);
    let point = Point::new(20, 30);
    let context = UpdateContext::ParentPosition(Point::new(9999, 9999));
    let result = widget.is_left_click_target(&point, &context);
    assert_eq!(result, false);
}

#[test]
fn menu_bar_assert_when_click_target_because_parent() {
    let config = build_config();
    let (w, h) = (config.width(), config.menu_height());
    let widget = MenuBar::new(&config);
    let point = Point::new(w as i32 + 120, h as i32 + 130);
    let context = UpdateContext::ParentPosition(Point::new(130, 140));
    let result = widget.is_left_click_target(&point, &context);
    assert_eq!(result, true);
}

#[test]
fn assert_on_click_do_nothing() {
    let config = build_config();
    let mut widget = MenuBar::new(&config);
    let point = Point::new(12, 34);
    let context = UpdateContext::ParentPosition(Point::new(678, 293));
    let result = widget.on_left_click(&point, &context);
    assert_eq!(result, UpdateResult::NoOp);
}

#[test]
fn click_on_save_button_saves() {
    let config = build_config();
    let mut widget = MenuBar::new(&config);
    let result = widget.on_left_click(&Point::new(20, 15), &UpdateContext::Nothing);
    assert_eq!(result, UpdateResult::SaveCurrentFile);
}

#[test]
fn click_on_settings_button_opens_settings() {
    let config = build_config();
    let mut widget = MenuBar::new(&config);
    let result = widget.on_left_click(&Point::new(40, 20), &UpdateContext::Nothing);
    assert_eq!(result, UpdateResult::OpenSettings);
    let result = widget.on_left_click(&Point::new(140, 120), &UpdateContext::ParentPosition(Point::new(100, 100)));
    assert_eq!(result, UpdateResult::OpenSettings);
}

#[test]
fn menu_bar_follows_window_width() {
    let mut config = build_config();
    let mut widget = MenuBar::new(&config);
    config.set_width(500);
    widget.update(&config);
    assert_eq!(widget.dest().width, 500);
}

// the buttons

#[test]
fn must_return_open_settings_on_left_click() {
    let mut widget = SettingsButton::new();
    assert_eq!(widget.on_left_click(&Point::new(0, 0), &UpdateContext::Nothing), UpdateResult::OpenSettings);
}

#[test]
fn settings_button_must_use_inner() {
    let mut widget = SettingsButton::new();
    assert_eq!(widget.dest(), &Rect::new(0, 0, 16, 16));
    widget.set_dest(&Rect::new(1, 2, 3, 4));
    assert_eq!(widget.dest(), &Rect::new(1, 2, 3, 4));
    assert_eq!(widget.source(), &Rect::new(0, 0, 16, 16));
    widget.set_source(&Rect::new(5, 6, 7, 8));
    assert_eq!(widget.source(), &Rect::new(5, 6, 7, 8));
}

#[test]
fn must_have_padding() {
    let widget = SettingsButton::new();
    assert_eq!(widget.padding_width(), 16);
    assert_eq!(widget.padding_height(), 16);
}

#[test]
fn save_button_saves_on_click() {
    let mut widget = SaveButton::new();
    assert_eq!(widget.on_left_click(&Point::new(3, 3), &UpdateContext::Nothing), UpdateResult::SaveCurrentFile);
    assert_eq!(widget.update(), UpdateResult::NoOp);
    assert!(widget.is_left_click_target(&Point::new(15, 15), &UpdateContext::Nothing));
    assert!(!widget.is_left_click_target(&Point::new(16, 15), &UpdateContext::Nothing));
}

#[test]
fn save_button_texture_in_themes_dir() {
    let mut config = build_config();
    config.directories.themes_dir = "/home/u/.rider/themes".to_owned();
    let widget = SaveButton::new();
    assert_eq!(
        widget.texture_path(&config),
        format!("/home/u/.rider/themes/{}", config.theme.images.save_icon)
    );
}

// the resource cache

struct CountingLoader {
    calls: Cell<u32>,
}

impl ResourceLoader<String> for CountingLoader {
    fn loads(&self, data: &str, r: &Result<String, String>) -> bool {
        match r {
            Ok(v) => *v == format!("loaded {}", data),
            Err(e) => data.is_empty() && e == "nothing to load",
        }
    }

    fn load(&self, data: &str) -> Result<String, String> {
        self.calls.set(self.calls.get() + 1);
        if data.is_empty() {
            Err("nothing to load".to_owned())
        } else {
            Ok(format!("loaded {}", data))
        }
    }
}

#[test]
fn resource_is_loaded_once() {
    let loader = CountingLoader { calls: Cell::new(0) };
    let mut manager = ResourceManager::new(&loader);
    let first: Rc<String> = manager.load("a.png").unwrap();
    let second: Rc<String> = manager.load("a.png").unwrap();
    assert_eq!(*first, "loaded a.png");
    assert!(Rc::ptr_eq(&first, &second));
    assert_eq!(manager.loader().calls.get(), 1);
    let other = manager.load("b.png").unwrap();
    assert_eq!(*other, "loaded b.png");
    assert_eq!(loader.calls.get(), 2);
}

#[test]
fn failed_load_is_not_cached() {
    let loader = CountingLoader { calls: Cell::new(0) };
    let mut manager = ResourceManager::new(&loader);
    assert_eq!(manager.load(""), Err("nothing to load".to_owned()));
    assert_eq!(manager.load(""), Err("nothing to load".to_owned()));
    assert_eq!(loader.calls.get(), 2);
}

#[test]
fn font_details_new() {
    let details = FontDetails::new("/fonts/mono.ttf", 14);
    assert_eq!(details.path, "/fonts/mono.ttf");
    assert_eq!(details.size, 14);
}

#[test]
fn font_details_follow_editor_config() {
    let mut config = build_config();
    config.editor_config.font_path = "/fonts/x.ttf".to_owned();
    config.editor_config.character_size = 20;
    let details = rider::ui::font_details_of(&config);
    assert_eq!(details, FontDetails::new("/fonts/x.ttf", 20));
}
