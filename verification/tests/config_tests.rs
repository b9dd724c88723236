use rider::config::directories::Directories;
use rider::config::editor_config::EditorConfig;
use rider::config::scroll_config::ScrollConfig;
use rider::config::settings::Config;
use rider::lexers::Language;
use rider::themes::Theme;
use rider::config::directories::{binaries_directory_of, get_binary_path};
use rider::ui::tree::{DirEntry, FileSystem};

#[test]
fn must_return_language_mapping() {
    let config = Config::new();

    let mapping = config.extensions_mapping();
    {
        let mut keys: Vec<String> = mapping.keys().iter().map(|s| s.to_string()).collect();
        let mut expected: Vec<String> = vec![
            ".".to_string(),
            "txt".to_string(),
            "rs".to_string(),
            "toml".to_string(),
        ];
        keys.sort();
        expected.sort();
        assert_eq!(keys, expected);
    }
    {
        let mut keys: Vec<Language> = mapping.values().iter().map(|s| s.clone()).collect();
        let mut expected: Vec<Language> = vec![
            Language::PlainText,
            Language::PlainText,
            Language::Rust,
            Language::Toml,
        ];
        keys.sort();
        expected.sort();
        assert_eq!(keys, expected);
    }
}

#[test]
fn config_assert_scroll() {
    let config = Config::new();
    let result = config.scroll();
    let expected = ScrollConfig::new();
    assert_eq!(result.clone(), expected);
}

#[test]
fn assert_scroll_mut() {
    let mut config = Config::new();
    let result = config.scroll_mut();
    result.set_margin_right(1236);
    let mut expected = ScrollConfig::new();
    expected.set_margin_right(1236);
    assert_eq!(result.clone(), expected);
}

#[test]
fn config_assert_width() {
    let config = Config::new();
    let result = config.width();
    let expected = 1024;
    assert_eq!(result, expected);
}

#[test]
fn assert_height() {
    let config = Config::new();
    let result = config.height();
    let expected = 860;
    assert_eq!(result, expected);
}

#[test]
fn assert_editor_config() {
    let config = Config::new();
    let result = config.editor_config();
    let expected = EditorConfig::new(&Directories::new(None, None));
    assert_eq!(result, &expected);
}

#[test]
fn assert_theme() {
    let config = Config::new();
    let result = config.theme();
    let expected = Theme::default();
    assert_eq!(result, &expected);
}

#[test]
fn assert_menu_height() {
    let config = Config::new();
    let result = config.menu_height();
    let expected = 40;
    assert_eq!(result, expected);
}

#[test]
fn assert_editor_top_margin() {
    let config = Config::new();
    let result = config.editor_top_margin();
    let expected = config.menu_height() as i32 + config.editor_config().margin_top() as i32;
    assert_eq!(result, expected);
}

#[test]
fn assert_editor_left_margin() {
    let config = Config::new();
    let result = config.editor_left_margin();
    let expected = 10;
    assert_eq!(result, expected);
}

#[test]
fn assert_extensions_mapping() {
    let config = Config::new();
    let mut result: Vec<String> = config
        .extensions_mapping()
        .keys()
        .iter()
        .map(|s| s.to_owned())
        .collect();
    result.sort();
    let mut expected: Vec<String> = vec![
        "rs".to_string(),
        "txt".to_string(),
        ".".to_string(),
        "toml".to_string(),
    ];
    expected.sort();
    assert_eq!(result, expected);
}

#[test]
fn mapping_gives_language_of_extension() {
    let config = Config::new();
    let mapping = config.extensions_mapping();
    assert_eq!(mapping.get("rs"), Some(Language::Rust));
    assert_eq!(mapping.get("toml"), Some(Language::Toml));
    assert_eq!(mapping.get("txt"), Some(Language::PlainText));
    assert_eq!(mapping.get("."), Some(Language::PlainText));
    assert_eq!(mapping.get("md"), None);
}

#[test]
fn mapping_insert_replaces_language() {
    let mut config = Config::new();
    config.extensions_mapping.insert("rs".to_string(), Language::Toml);
    assert_eq!(config.extensions_mapping().get("rs"), Some(Language::Toml));
    assert_eq!(config.extensions_mapping().keys().len(), 4);
    config.extensions_mapping.insert("md".to_string(), Language::PlainText);
    assert_eq!(config.extensions_mapping().keys().len(), 5);
}

#[test]
fn set_width_and_height_change_only_them() {
    let mut config = Config::new();
    config.set_width(300);
    config.set_height(200);
    assert_eq!(config.width(), 300);
    assert_eq!(config.height(), 200);
    assert_eq!(config.menu_height(), 40);
}

#[test]
fn replace_theme_sets_theme() {
    let mut config = Config::new();
    config.set_theme(rider::themes::build_theme());
    assert_eq!(config.theme().name(), "railscasts");
}

// directories

#[test]
fn directories_assert_log_dir() {
    let directories = Directories::new(Some("/tmp".to_owned()), None);
    assert_eq!(directories.log_dir, "/tmp/rider/log".to_string());
}

#[test]
fn directories_assert_themes_dir() {
    let directories = Directories::new(Some("/tmp".to_owned()), None);
    assert_eq!(directories.themes_dir, "/tmp/rider/themes".to_string());
}

#[test]
fn directories_assert_fonts_dir() {
    let directories = Directories::new(Some("/tmp".to_owned()), None);
    assert_eq!(directories.fonts_dir, "/tmp/rider/fonts".to_string());
}

#[test]
fn assert_config_dir() {
    let directories = Directories::new(Some("/tmp".to_owned()), None);
    assert_eq!(directories.config_dir, "/tmp/rider".to_string());
}

#[test]
fn directories_with_trailing_slash_and_project_base() {
    let directories = Directories::new(Some("/home/u/".to_owned()), Some("/run".to_owned()));
    assert_eq!(directories.config_dir, "/home/u/rider".to_string());
    assert_eq!(directories.project_dir, "/run/.rider".to_string());
    let relative = Directories::from_bases("", "");
    assert_eq!(relative.config_dir, "rider".to_string());
    assert_eq!(relative.log_dir, "rider/log".to_string());
}

// editor config

#[test]
fn assert_font_path() {
    let directories = Directories::new(Some("/tmp".to_owned()), None);
    let config = EditorConfig::new(&directories);
    let path = config.font_path().to_owned();
    let expected: String = "/tmp/rider/fonts/DejaVuSansMono.ttf".to_owned();
    assert_eq!(path, expected);
}

#[test]
fn assert_character_size() {
    let directories = Directories::new(Some("/tmp".to_owned()), None);
    let config = EditorConfig::new(&directories);
    let result = config.character_size();
    let expected: u16 = 14;
    assert_eq!(result, expected);
}

#[test]
fn assert_current_theme() {
    let directories = Directories::new(Some("/tmp".to_owned()), None);
    let config = EditorConfig::new(&directories);
    let result = config.current_theme().to_owned();
    let expected = "railscasts".to_owned();
    assert_eq!(result, expected);
}

#[test]
fn assert_margin_left() {
    let directories = Directories::new(Some("/tmp".to_owned()), None);
    let config = EditorConfig::new(&directories);
    let result = config.margin_left();
    let expected: u16 = 10;
    assert_eq!(result, expected);
}

#[test]
fn assert_margin_top() {
    let directories = Directories::new(Some("/tmp".to_owned()), None);
    let config = EditorConfig::new(&directories);
    let result = config.margin_top();
    let expected: u16 = 10;
    assert_eq!(result, expected);
}

// scroll config

#[test]
fn assert_default() {
    let config = ScrollConfig::default();
    assert_eq!(config.width, 4);
    assert_eq!(config.margin_right, 5);
    assert_eq!(config.speed, 10);
}

#[test]
fn scroll_config_assert_width() {
    let config = ScrollConfig::new();
    let result = config.width();
    let expected = 4;
    assert_eq!(result, expected);
}

#[test]
fn assert_set_width() {
    let mut config = ScrollConfig::new();
    config.set_width(60);
    let result = config.width();
    let expected = 60;
    assert_eq!(result, expected);
}

#[test]
fn assert_margin_right() {
    let config = ScrollConfig::new();
    let result = config.margin_right();
    let expected = 5;
    assert_eq!(result, expected);
}

#[test]
fn assert_set_margin_right() {
    let mut config = ScrollConfig::new();
    config.set_margin_right(98);
    let result = config.margin_right();
    let expected = 98;
    assert_eq!(result, expected);
}

#[test]
fn assert_speed() {
    let config = ScrollConfig::new();
    let result = config.speed();
    let expected = 30;
    assert_eq!(result, expected);
}

#[test]
fn assert_set_speed() {
    let mut config = ScrollConfig::new();
    config.set_speed(98);
    let result = config.speed();
    let expected = 98;
    assert_eq!(result, expected);
}

#[test]
fn mapping_get_after_insert() {
    let mut config = Config::new();
    let before_txt = config.extensions_mapping().get("txt");
    let mut mapping = config.extensions_mapping().clone();
    mapping.insert("md".to_owned(), Language::PlainText);
    mapping.insert("rs".to_owned(), Language::Toml);
    assert_eq!(mapping.get("md"), Some(Language::PlainText));
    assert_eq!(mapping.get("rs"), Some(Language::Toml));
    assert_eq!(mapping.get("txt"), before_txt);
    assert_eq!(mapping.get("nope"), None);
    config.set_width(10);
}

// where the editor's programs are

struct EverythingFs;

impl FileSystem for EverythingFs {
    fn list(&mut self, _path: &str) -> Vec<DirEntry> {
        vec![]
    }

    fn is_present(&mut self, _path: &str) -> bool {
        true
    }
}

#[test]
fn binaries_directory_is_the_first_that_holds_the_editor() {
    let candidates = vec!["/a".to_owned(), "/b".to_owned(), "/c".to_owned()];
    assert_eq!(binaries_directory_of(&candidates, &vec![false, true, true]), Ok("/b".to_owned()));
    assert_eq!(
        binaries_directory_of(&candidates, &vec![false, false, false]),
        Err("Cannot find binaries!".to_owned())
    );
}

#[test]
fn binary_path_is_in_the_binaries_directory() {
    match get_binary_path("rider-generator", &mut EverythingFs, "/work") {
        Ok(p) => assert!(p.ends_with("/rider-generator")),
        Err(e) => assert_eq!(e, "Cannot find binaries!"),
    }
}

#[test]
fn binary_candidates_come_in_search_order() {
    let v = rider::config::directories::binary_candidate_list("/e", "/r", "/w");
    assert_eq!(v, vec!["/e".to_owned(), "/r".to_owned(), "/w/target/debug".to_owned(), "/e".to_owned()]);
}

#[test]
fn absolute_part_replaces_base() {
    assert_eq!(rider::config::paths::join_path("/a", "/b"), "/b".to_owned());
    assert_eq!(rider::config::paths::join_path("/a", "b"), "/a/b".to_owned());
}
