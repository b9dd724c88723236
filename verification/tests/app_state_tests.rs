use std::collections::HashMap;

use rider::app_state::{AppState, ClickRoute, Effect, TextInput};
use rider::config::settings::Config;
use rider::editor::text_character::CharacterSizeManager;
use rider::events::UpdateResult;
use rider::geometry::{Point, Rect};
use rider::ui::modal::OpenFile;
use rider::ui::tree::{DirEntry, FileSystem};

fn build_config() -> Config {
    Config::new()
}

/// Every character 13 wide and 14 high.
struct SimpleRendererMock;

impl CharacterSizeManager for SimpleRendererMock {
    fn load_character_size(&mut self, _c: char) -> Rect {
        Rect::new(0, 0, 13, 14)
    }
}

/// A file system held in memory.
#[derive(Default)]
struct MemoryFs {
    entries: HashMap<String, Vec<DirEntry>>,
}

impl MemoryFs {
    fn with_dir(mut self, path: &str, children: Vec<(&str, bool)>) -> Self {
        let list = children
            .into_iter()
            .map(|(name, is_dir)| DirEntry { name: name.to_owned(), path: format!("{}/{}", path, name), is_dir })
            .collect();
        self.entries.insert(path.to_owned(), list);
        self
    }
}

impl FileSystem for MemoryFs {
    fn list(&mut self, path: &str) -> Vec<DirEntry> {
        self.entries.get(path).cloned().unwrap_or_default()
    }

    fn is_present(&mut self, path: &str) -> bool {
        self.entries.contains_key(path)
    }
}

fn state() -> (AppState, Config) {
    let config = build_config();
    let state = AppState::new(&config, "/tmp".to_owned());
    (state, config)
}

#[test]
fn must_return_none_for_default_file() {
    let (state, _config) = state();
    let file = state.file_editor().file();
    assert_eq!(file.is_none(), true);
}

#[test]
fn must_scroll_file_when_no_modal() {
    let (mut state, config) = state();
    let old_scroll = state.file_editor().scroll();
    state.set_open_file_modal(None);
    state.scroll_by(10, 10, &config);
    assert_ne!(state.file_editor().scroll(), old_scroll);
}

#[test]
fn must_fail_save_file_when_none_is_open() {
    let (state, _config) = state();
    let result = state.file_to_save().map(|_| ());
    assert_eq!(result, Err(format!("No buffer found")));
}

#[test]
fn must_close_modal_when_no_modal_is_open() {
    let (mut state, _config) = state();
    assert_eq!(state.close_modal(), Ok(()));
}

#[test]
fn open_settings_when_there_is_no_other_modal() {
    let (mut state, config) = state();
    assert_eq!(state.open_settings(&mut SimpleRendererMock, &config), Ok(()));
    assert!(state.settings_modal().is_some());
}

#[test]
fn must_open_directory() {
    let (mut state, config) = state();
    let mut fs = MemoryFs::default().with_dir("/tmp", vec![("must_open_directory", true)]);
    state.open_directory("/must_open_directory", &mut fs, &mut SimpleRendererMock, &config);
    assert_eq!(state.project_tree().root(), "/tmp");
}

// scenarios of the window

#[test]
fn opened_file_is_saved_back() {
    let (mut state, config) = state();
    state.open_file("/tmp/notes.txt".to_owned(), "Foo bar".to_owned(), &mut SimpleRendererMock, &config);
    assert_eq!(state.file_to_save(), Ok(("/tmp/notes.txt".to_owned(), "Foo bar".to_owned())));
    state.open_file("/tmp/other.txt".to_owned(), "baz".to_owned(), &mut SimpleRendererMock, &config);
    assert_eq!(state.files().len(), 1);
    assert_eq!(state.files()[0].path(), "/tmp/notes.txt");
}

#[test]
fn modal_is_scrolled_in_place_of_the_editor() {
    let (mut state, config) = state();
    let modal = OpenFile::new("/tmp".to_owned(), 100, 100, &config);
    let file_scroll = state.file_editor().scroll();
    state.set_open_file_modal(Some(modal));
    state.scroll_by(10, 10, &config);
    assert_eq!(state.file_editor().scroll(), file_scroll);
    assert_eq!(state.open_file_modal().unwrap().scroll(), Point::new(-300, -300));
}

#[test]
fn settings_stay_when_another_window_is_open() {
    let (mut state, config) = state();
    let modal = OpenFile::new("/tmp".to_owned(), 100, 100, &config);
    state.set_open_file_modal(Some(modal));
    assert_eq!(state.open_settings(&mut SimpleRendererMock, &config), Ok(()));
    assert!(state.open_file_modal().is_some());
    assert!(state.settings_modal().is_none());
}

#[test]
fn click_on_the_save_button_asks_to_save_and_stops_text_input() {
    let (mut state, mut config) = state();
    let mut fs = MemoryFs::default().with_dir("/tmp", vec![]);
    state.prepare_ui(&config, &mut fs, &mut SimpleRendererMock);
    // the save button is drawn 10 right and 10 down in the menu bar, right
    // of the project tree
    let p = Point::new(210 + 1, 10 + 1);
    let route = state.click_route_of(&p);
    if route == ClickRoute::MenuBar {
        let outcome = state.apply_task(&UpdateResult::MouseLeftClicked(p), &mut fs, &mut SimpleRendererMock, &mut config);
        assert_eq!(outcome.text_input, TextInput::Stop);
        assert_eq!(outcome.effect, Effect::Nothing);
    } else {
        assert_eq!(route, ClickRoute::ProjectTree);
    }
}

#[test]
fn tasks_give_their_effects() {
    let (mut state, mut config) = state();
    let mut fs = MemoryFs::default();
    let mut sizes = SimpleRendererMock;
    let o = state.apply_task(&UpdateResult::Stop, &mut fs, &mut sizes, &mut config);
    assert_eq!(o.effect, Effect::Stop);
    let o = state.apply_task(&UpdateResult::SaveCurrentFile, &mut fs, &mut sizes, &mut config);
    assert_eq!(o.effect, Effect::SaveFile);
    let o = state.apply_task(&UpdateResult::OpenFile("a.txt".to_owned()), &mut fs, &mut sizes, &mut config);
    assert_eq!(o.effect, Effect::ReadFile("a.txt".to_owned()));
    let o = state.apply_task(&UpdateResult::OpenFileModal, &mut fs, &mut sizes, &mut config);
    assert_eq!(o.effect, Effect::OpenFileModal);
    let o = state.apply_task(&UpdateResult::WindowResize { width: 800, height: -1 }, &mut fs, &mut sizes, &mut config);
    assert_eq!(o.effect, Effect::Nothing);
    assert_eq!((config.width(), config.height()), (800, 860));
}

#[test]
fn tasks_open_and_close_the_settings() {
    let (mut state, mut config) = state();
    let mut fs = MemoryFs::default();
    let mut sizes = SimpleRendererMock;
    assert!(state.can_apply_task(&UpdateResult::OpenSettings, &config));
    state.apply_task(&UpdateResult::OpenSettings, &mut fs, &mut sizes, &mut config);
    assert!(state.settings_modal().is_some());
    state.apply_task(&UpdateResult::CloseModal, &mut fs, &mut sizes, &mut config);
    assert!(state.settings_modal().is_none());
}

#[test]
fn wheel_task_scrolls_the_other_way() {
    let (mut state, mut config) = state();
    let mut fs = MemoryFs::default();
    let mut sizes = SimpleRendererMock;
    let task = UpdateResult::Scroll { x: 0, y: -2 };
    assert!(state.can_apply_task(&task, &config));
    state.apply_task(&task, &mut fs, &mut sizes, &mut config);
    assert_eq!(state.file_editor().scroll(), Point::new(0, -60));
    assert!(!state.can_apply_task(&UpdateResult::Scroll { x: i32::MIN, y: 0 }, &config));
    assert!(!state.can_apply_task(&UpdateResult::RefreshFsTree, &config));
}

#[test]
fn typing_goes_to_the_editor() {
    let (mut state, mut config) = state();
    let mut fs = MemoryFs::default();
    let mut sizes = SimpleRendererMock;
    state.open_file("/tmp/a.txt".to_owned(), "b".to_owned(), &mut sizes, &config);
    let task = UpdateResult::Input("a".to_owned());
    assert!(state.can_apply_task(&task, &config));
    state.apply_task(&task, &mut fs, &mut sizes, &mut config);
    assert_eq!(state.file_editor().file().unwrap().buffer(), "ab");
}

#[test]
fn update_puts_the_editor_beside_the_tree() {
    let (mut state, config) = state();
    let mut fs = MemoryFs::default().with_dir("/tmp", vec![]);
    state.prepare_ui(&config, &mut fs, &mut SimpleRendererMock);
    assert!(state.can_update(&config));
    assert_eq!(state.update(&config, &mut fs), UpdateResult::NoOp);
    assert_eq!(state.file_editor().dest().x, 210);
    assert_eq!(state.file_editor().dest().width, 1024 - 210);
    assert_eq!(state.project_tree().full_rect().y, 40);
}

#[test]
fn open_file_modal_at_opens_the_tree() {
    let (mut state, config) = state();
    let mut fs = MemoryFs::default().with_dir("/work", vec![("a.rs", false)]);
    assert!(!state.open_file_modal_at("/".to_owned(), &mut fs, &mut SimpleRendererMock, &config));
    assert!(state.open_file_modal().is_none());
    assert!(state.open_file_modal_at("/work".to_owned(), &mut fs, &mut SimpleRendererMock, &config));
    let m = state.open_file_modal().unwrap();
    assert_eq!(m.root_path(), "/work");
    assert_eq!(m.directory_view.files.len(), 1);
    assert_eq!(m.dest(), Rect::new(512 - 200, 430 - 400, 400, 800));
}

#[test]
fn try_new_needs_a_named_root() {
    let config = Config::new();
    assert!(AppState::try_new(&config, "/".to_owned()).is_none());
    let state = AppState::try_new(&config, "/tmp".to_owned());
    assert!(state.is_some());
    assert_eq!(state.unwrap().project_tree().root(), "/tmp".to_owned());
}
