use rider::config::settings::Config;
use rider::editor::text_character::CharacterSizeManager;
use rider::events::UpdateResult;
use rider::geometry::{Point, Rect};
use rider::ui::widgets::{FileEntry, Icon, Label};
use rider::ui::UpdateContext;

fn build_config() -> Config {
    Config::new()
}

/// Every character 13 wide and 14 high.
struct SimpleRendererMock;

impl CharacterSizeManager for SimpleRendererMock {
    fn load_character_size(&mut self, _c: char) -> Rect {
        Rect::new(0, 0, 13, 14)
    }
}

fn entry() -> FileEntry {
    FileEntry::new("bar.txt".to_owned(), "/foo".to_owned(), &build_config())
}

fn prepared_entry() -> FileEntry {
    let mut widget = entry();
    widget.prepare_ui(&mut SimpleRendererMock);
    widget
}

#[test]
fn file_assert_initial_name_width() {
    assert_eq!(entry().name_width(), 16);
}

#[test]
fn file_assert_prepared_name_width() {
    assert_eq!(prepared_entry().name_width(), 91);
}

#[test]
fn file_assert_initial_icon_width() {
    assert_eq!(entry().icon_width(), 16);
}

#[test]
fn file_assert_prepared_icon_width() {
    assert_eq!(prepared_entry().icon_width(), 14);
}

#[test]
fn file_assert_initial_height() {
    assert_eq!(entry().height(), 16);
}

#[test]
fn file_assert_prepared_height() {
    assert_eq!(prepared_entry().height(), 16);
}

#[test]
fn file_assert_initial_name() {
    assert_eq!(entry().name(), "bar.txt".to_owned());
}

#[test]
fn file_assert_prepared_name() {
    assert_eq!(prepared_entry().name(), "bar.txt".to_owned());
}

#[test]
fn file_assert_initial_path() {
    assert_eq!(entry().path(), "/foo".to_owned());
}

#[test]
fn file_assert_prepared_path() {
    assert_eq!(prepared_entry().path(), "/foo".to_owned());
}

#[test]
fn file_assert_initial_source() {
    assert_eq!(entry().source(), &Rect::new(0, 0, 64, 64));
}

#[test]
fn file_assert_prepared_source() {
    assert_eq!(prepared_entry().source(), &Rect::new(0, 0, 64, 64));
}

#[test]
fn file_assert_initial_dest() {
    assert_eq!(entry().dest(), &Rect::new(0, 0, 16, 16));
}

#[test]
fn file_assert_prepared_dest() {
    assert_eq!(prepared_entry().dest(), &Rect::new(0, 0, 105, 16));
}

#[test]
fn assert_initial_full_dest() {
    assert_eq!(entry().full_dest(), Rect::new(0, 0, 52, 16));
}

#[test]
fn assert_prepared_full_dest() {
    assert_eq!(prepared_entry().full_dest(), Rect::new(0, 0, 125, 16));
}

#[test]
fn file_assert_update_when_doesnt_exists() {
    let mut widget = prepared_entry();
    let exists = std::path::Path::new(&widget.path()).exists();
    assert_eq!(widget.update(exists), UpdateResult::RefreshFsTree);
}

#[test]
fn file_assert_update_when_does_exists() {
    let mut widget = FileEntry::new("bar.txt".to_owned(), "/tmp".to_owned(), &build_config());
    widget.prepare_ui(&mut SimpleRendererMock);
    let exists = std::path::Path::new(&widget.path()).exists();
    assert_eq!(widget.update(exists), UpdateResult::NoOp);
}

#[test]
fn file_assert_is_left_click_target_when_target() {
    let widget = prepared_entry();
    assert_eq!(widget.is_left_click_target(&Point::new(0, 0), &UpdateContext::Nothing), true);
}

#[test]
fn file_assert_is_left_click_target_when_target_with_parent() {
    let widget = prepared_entry();
    let context = UpdateContext::ParentPosition(Point::new(0, 0));
    assert_eq!(widget.is_left_click_target(&Point::new(0, 0), &context), true);
}

#[test]
fn file_refute_is_left_click_target_when_target() {
    let widget = prepared_entry();
    assert_eq!(widget.is_left_click_target(&Point::new(9000, 0), &UpdateContext::Nothing), false);
}

#[test]
fn file_refute_is_left_click_target_when_target_with_parent() {
    let widget = prepared_entry();
    let context = UpdateContext::ParentPosition(Point::new(0, 0));
    assert_eq!(widget.is_left_click_target(&Point::new(0, 9000), &context), false);
}

#[test]
fn click_on_entry_opens_its_file() {
    let mut widget = prepared_entry();
    assert_eq!(widget.on_left_click(), UpdateResult::OpenFile("/foo".to_owned()));
}

#[test]
fn entry_icon_comes_from_the_theme() {
    let mut config = build_config();
    config.directories.themes_dir = "/t".to_owned();
    let widget = FileEntry::new("a".to_owned(), "/a".to_owned(), &config);
    assert_eq!(widget.icon.texture_path(), format!("/t/{}", config.theme.images.file_icon));
}

#[test]
fn must_return_noop_on_left_click() {
    let dest = Rect::new(0, 10, 20, 30);
    let src = Rect::new(40, 50, 60, 70);
    let mut widget = Icon::new("/foo/bar.png".to_owned(), src, dest);
    assert_eq!(widget.on_left_click(&Point::new(0, 0), &UpdateContext::Nothing), UpdateResult::NoOp);
}

#[test]
fn icon_must_use_inner() {
    let dest = Rect::new(0, 10, 20, 30);
    let src = Rect::new(40, 50, 60, 70);
    let mut widget = Icon::new("/foo/bar.png".to_owned(), src, dest);
    assert_eq!(widget.dest(), &dest);
    widget.set_dest(&Rect::new(1, 2, 3, 4));
    assert_eq!(widget.dest(), &Rect::new(1, 2, 3, 4));
    assert_eq!(widget.source(), &src);
    widget.set_source(&Rect::new(5, 6, 7, 8));
    assert_eq!(widget.source(), &Rect::new(5, 6, 7, 8));
}

#[test]
fn label_width_is_the_sum_of_its_characters() {
    let mut label = Label::new("héllo".to_owned());
    assert_eq!(label.name_width(), 16);
    label.prepare_ui(&mut SimpleRendererMock);
    assert_eq!(label.name_width(), 65);
    assert_eq!(label.dest.height, 14);
    assert_eq!(label.char_sizes.len(), 5);
}

struct Huge;

impl CharacterSizeManager for Huge {
    fn load_character_size(&mut self, _c: char) -> Rect {
        Rect::new(0, 0, u32::MAX / 2 + 1, 1)
    }
}

#[test]
fn label_width_stops_at_the_largest_width() {
    let mut label = Label::new("abc".to_owned());
    label.prepare_ui(&mut Huge);
    assert_eq!(label.name_width(), 1073741823);
}

#[test]
fn file_assert_render() {
    let mut widget = FileEntry::new("bar.txt".to_owned(), "/foo".to_owned(), &build_config());
    widget.prepare_ui(&mut SimpleRendererMock);
    let mut out = Vec::new();
    widget.render(&rider::ui::RenderContext::Nothing, &mut out);
    assert_eq!(widget.full_dest(), Rect::new(0, 0, 125, 16));
}
