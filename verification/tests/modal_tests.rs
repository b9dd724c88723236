use std::collections::HashMap;

use rider::config::settings::Config;
use rider::editor::text_character::CharacterSizeManager;
use rider::events::UpdateResult;
use rider::geometry::{Point, Rect};
use rider::ui::modal::{ModalType, OpenFile, Settings};
use rider::ui::tree::{DirEntry, FileSystem};
use rider::ui::UpdateContext;

fn build_config() -> Config {
    Config::new()
}

/// Every character 13 wide and 14 high.
struct SimpleRendererMock;

impl CharacterSizeManager for SimpleRendererMock {
    fn load_character_size(&mut self, _c: char) -> Rect {
        Rect::new(0, 0, 13, 14)
    }
}

/// A file system held in memory.
#[derive(Default)]
struct MemoryFs {
    entries: HashMap<String, Vec<DirEntry>>,
}

impl FileSystem for MemoryFs {
    fn list(&mut self, path: &str) -> Vec<DirEntry> {
        self.entries.get(path).cloned().unwrap_or_default()
    }

    fn is_present(&mut self, path: &str) -> bool {
        self.entries.contains_key(path)
    }
}

// the open-file window

#[test]
fn open_file_assert_dest() {
    let config = build_config();
    let widget = OpenFile::new("/tmp".to_owned(), 120, 130, &config);
    assert_eq!(widget.dest(), Rect::new(452, 365, 120, 130));
}

#[test]
fn open_file_assert_full_rect() {
    let config = build_config();
    let widget = OpenFile::new("/tmp".to_owned(), 120, 130, &config);
    assert_eq!(widget.full_rect(), Rect::new(0, 0, 16, 16));
}

#[test]
fn open_file_assert_update() {
    let config = build_config();
    let mut widget = OpenFile::new("/tmp".to_owned(), 100, 100, &config);
    widget.update(&config, &UpdateContext::Nothing);
}

#[test]
fn assert_root_path() {
    let config = build_config();
    let path = "/tmp/rider/test-open-file/open-directory";
    let mut widget = OpenFile::new(path.to_owned(), 100, 100, &config);
    widget.update(&config, &UpdateContext::Nothing);
    assert_eq!(widget.root_path(), path.to_owned());
}

#[test]
fn open_file_assert_render_start_point() {
    let config = build_config();
    let path = "/tmp/rider/test-open-file/open-directory";
    let mut widget = OpenFile::new(path.to_owned(), 100, 100, &config);
    widget.update(&config, &UpdateContext::Nothing);
    assert_eq!(widget.render_start_point(), Point::new(462, 380));
}

#[test]
fn open_file_assert_on_left_click_with_nothing() {
    let config = build_config();
    let path = "/tmp/rider/test-open-file/open-directory";
    let mut widget = OpenFile::new(path.to_owned(), 100, 100, &config);
    let p = Point::new(100, 100);
    widget.on_left_click(&p, &UpdateContext::Nothing);
}

#[test]
fn open_file_assert_on_left_click_with_parent_position() {
    let config = build_config();
    let path = "/tmp/rider/test-open-file/open-directory";
    let mut widget = OpenFile::new(path.to_owned(), 100, 100, &config);
    let p = Point::new(100, 100);
    widget.on_left_click(&p, &UpdateContext::ParentPosition(Point::new(10, 10)));
}

#[test]
fn open_file_assert_is_left_click_target_with_nothing() {
    let config = build_config();
    let path = "/tmp/rider/test-open-file/open-directory";
    let widget = OpenFile::new(path.to_owned(), 100, 100, &config);
    let p = Point::new(100, 100);
    assert_eq!(widget.is_left_click_target(&p, &UpdateContext::Nothing), false);
}

#[test]
fn open_file_assert_is_left_click_target_with_parent_position() {
    let config = build_config();
    let path = "/tmp/rider/test-open-file/open-directory";
    let widget = OpenFile::new(path.to_owned(), 100, 100, &config);
    let p = Point::new(100, 100);
    let context = UpdateContext::ParentPosition(Point::new(10, 10));
    assert_eq!(widget.is_left_click_target(&p, &context), false);
}

#[test]
fn open_file_assert_is_left_click_target_with_parent_position_in_box() {
    let config = build_config();
    let path = "/tmp/rider/test-open-file/open-directory";
    let widget = OpenFile::new(path.to_owned(), 100, 100, &config);
    let p = Point::new(500, 400);
    let context = UpdateContext::ParentPosition(Point::new(10, 10));
    assert_eq!(widget.is_left_click_target(&p, &context), false);
}

#[test]
fn open_file_window_needs_a_named_root() {
    let config = build_config();
    assert!(OpenFile::try_new("/".to_owned(), 100, 100, &config).is_none());
    assert!(OpenFile::try_new("/tmp".to_owned(), 100, 100, &config).is_some());
}

#[test]
fn opening_the_root_lists_it_and_grows_the_window() {
    let config = build_config();
    let mut fs = MemoryFs::default();
    fs.entries.insert(
        "/work".to_owned(),
        vec![DirEntry { name: "a.rs".to_owned(), path: "/work/a.rs".to_owned(), is_dir: false }],
    );
    let mut widget = OpenFile::new("/work".to_owned(), 400, 800, &config);
    widget.prepare_ui(&mut SimpleRendererMock);
    widget.open_directory("/work", &mut fs, &mut SimpleRendererMock, &config);
    assert_eq!(widget.directory_view.files.len(), 1);
    let tree = widget.directory_view.dest();
    assert_eq!(widget.full_rect(), Rect::new(tree.x, tree.y, tree.width + 32, tree.height + 48));
}

#[test]
fn open_file_window_scrolls_by_speed() {
    let config = build_config();
    let mut widget = OpenFile::new("/tmp".to_owned(), 100, 100, &config);
    widget.scroll_by(0, 2, &config);
    assert_eq!(widget.scroll(), Point::new(0, -60));
}

// the settings window

#[test]
fn must_have_vertical_scrollbar() {
    let config = build_config();
    let mut widget = Settings::new(&config);
    assert_eq!(widget.vertical_scroll_handler().is_some(), true);
    let bar = widget.mut_vertical_scroll_handler();
    bar.scroll_to(3);
    assert_eq!(widget.vertical_scroll_handler().unwrap().scroll_value(), 3);
}

#[test]
fn must_have_horizontal_scrollbar() {
    let config = build_config();
    let mut widget = Settings::new(&config);
    assert_eq!(widget.horizontal_scroll_handler().is_some(), true);
    let bar = widget.mut_horizontal_scroll_handler();
    bar.scroll_to(3);
    assert_eq!(widget.horizontal_scroll_handler().unwrap().scroll_value(), 3);
}

#[test]
fn settings_assert_texture_path() {
    let config = build_config();
    let widget = Settings::new(&config);
    assert!(widget.texture_path().is_none());
}

#[test]
fn settings_assert_dest() {
    let config = build_config();
    let widget = Settings::new(&config);
    assert_eq!(*widget.dest(), Rect::new(16, 24, 992, 812));
}

#[test]
fn settings_assert_set_dest() {
    let config = build_config();
    let mut widget = Settings::new(&config);
    widget.set_dest(&Rect::new(100, 200, 300, 400));
    assert_ne!(widget.dest(), &Rect::new(100, 200, 300, 400));
}

#[test]
fn settings_assert_source() {
    let config = build_config();
    let widget = Settings::new(&config);
    assert_eq!(widget.source(), &Rect::new(16, 24, 992, 812));
}

#[test]
fn settings_assert_set_source() {
    let config = build_config();
    let mut widget = Settings::new(&config);
    widget.set_source(&Rect::new(1, 2, 3, 4));
    assert_ne!(widget.source(), &Rect::new(1, 2, 3, 4));
}

#[test]
fn settings_assert_update() {
    let config = build_config();
    let mut widget = Settings::new(&config);
    let result = widget.update(&config, &UpdateContext::Nothing);
    assert_eq!(result, UpdateResult::NoOp);
}

#[test]
fn settings_assert_on_left_click() {
    let config = build_config();
    let mut widget = Settings::new(&config);
    let result = widget.on_left_click(&Point::new(600, 800), &UpdateContext::Nothing);
    assert_eq!(result, UpdateResult::NoOp);
}

#[test]
fn settings_assert_is_left_click_target() {
    let config = build_config();
    let widget = Settings::new(&config);
    let result = widget.is_left_click_target(&Point::new(600, 800), &UpdateContext::Nothing);
    assert_eq!(result, false);
}

#[test]
fn settings_assert_use_clipping() {
    let config = build_config();
    let widget = Settings::new(&config);
    assert_eq!(widget.use_clipping(), false);
}

#[test]
fn settings_assert_prepare_ui() {
    let config = build_config();
    let mut widget = Settings::new(&config);
    let result = widget.prepare_ui(&mut SimpleRendererMock);
    assert_eq!(result, ());
}

#[test]
fn settings_show_font_and_character_size() {
    let config = build_config();
    let mut widget = Settings::new(&config);
    assert_eq!(widget.font_label.name(), "Font path");
    assert_eq!(widget.font_value.name(), config.editor_config().font_path().clone());
    assert_eq!(widget.character_size_label.name(), "Character size");
    assert_eq!(widget.character_size_value.name(), config.editor_config().character_size().to_string());
    widget.prepare_ui(&mut SimpleRendererMock);
    assert_eq!(widget.font_label.name_width(), 13 * 9);
}

#[test]
fn decimal_text_writes_digits() {
    assert_eq!(rider::text::decimal_text(0), "0");
    assert_eq!(rider::text::decimal_text(7), "7");
    assert_eq!(rider::text::decimal_text(14), "14");
    assert_eq!(rider::text::decimal_text(4294967295), "4294967295");
}

#[test]
fn modal_kinds_compare_by_kind() {
    let config = build_config();
    let a = ModalType::OpenFile(OpenFile::new("/tmp".to_owned(), 1, 1, &config));
    let b = ModalType::OpenFile(OpenFile::new("/var".to_owned(), 2, 2, &config));
    let c = ModalType::Settings(Settings::new(&config));
    assert!(a == b);
    assert!(a != c);
    assert!(c == ModalType::Settings(Settings::new(&config)));
}

#[test]
fn settings_assert_render() {
    let config = build_config();
    let widget = Settings::new(&config);
    let mut out = Vec::new();
    let result = widget.render(&rider::ui::RenderContext::Nothing, &mut out);
    assert_eq!(result, ());
}
