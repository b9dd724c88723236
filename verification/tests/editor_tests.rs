use rider::caret::CaretPosition;
use rider::config::settings::Config;
use rider::editor::caret::MoveDirection;
use rider::editor::content::current_file_path;
use rider::editor::file::EditorFile;
use rider::editor::file_editor::FileEditor;
use rider::editor::moves::{move_caret_down, move_caret_left, move_caret_right, move_caret_up};
use rider::editor::text_character::CharacterSizeManager;
use rider::geometry::{Point, Rect};
use rider::lexers::Language;

fn build_config() -> Config {
    Config::new()
}

/// Every character 13 wide and 14 high.
struct SimpleRendererMock;

impl CharacterSizeManager for SimpleRendererMock {
    fn load_character_size(&mut self, _c: char) -> Rect {
        Rect::new(0, 0, 13, 14)
    }
}

/// A line break 12 by 13, any other character 14 by 15.
struct RendererMock;

impl CharacterSizeManager for RendererMock {
    fn load_character_size(&mut self, c: char) -> Rect {
        match c {
            '\n' => Rect::new(0, 0, 12, 13),
            _ => Rect::new(0, 0, 14, 15),
        }
    }
}

fn prepared_editor(path: &str, text: &str) -> (FileEditor, Config) {
    let config = build_config();
    let mut renderer = SimpleRendererMock;
    let mut editor = FileEditor::new(&config);
    let mut file = EditorFile::new(path.to_owned(), text.to_owned(), &config);
    file.prepare_ui(&mut renderer, &config.theme.code_highlighting);
    editor.open_file(file);
    editor.prepare_ui(&mut renderer, &config.theme.code_highlighting);
    (editor, config)
}

fn build_testable_file(buffer: &str, config: &Config) -> EditorFile {
    EditorFile::new("/tmp/drop_file_when_file_is_selected".to_owned(), buffer.to_owned(), config)
}

// moving right

#[test]
fn assert_move_with_no_file() {
    let config = build_config();
    let mut editor = FileEditor::new(&config);
    assert_eq!(move_caret_right(&mut editor).is_some(), false);
}

#[test]
fn caret_manager_assert_move_caret_with_empty_file() {
    let (mut editor, _config) = prepared_editor("test.txt", "");
    assert_eq!(move_caret_right(&mut editor).is_some(), false);
}

#[test]
fn caret_manager_assert_move_caret_with_filled_file() {
    let (mut editor, _config) = prepared_editor("test.txt", "hello");
    assert_eq!(move_caret_right(&mut editor).is_some(), true);
}

// moving left

#[test]
fn assert_move_caret_without_file() {
    let config = build_config();
    let mut editor = FileEditor::new(&config);
    assert_eq!(move_caret_left(&mut editor).is_some(), false);
}

#[test]
fn caret_manager_assert_move_caret_with_empty_file_left() {
    let (mut editor, _config) = prepared_editor("test.txt", "");
    assert_eq!(move_caret_left(&mut editor).is_some(), false);
}

#[test]
fn caret_manager_assert_move_caret_with_filled_file_left() {
    let (mut editor, _config) = prepared_editor("test.txt", "hello");
    editor.caret_mut().set_text_position(2);
    editor.caret_mut().set_line_position(2);
    editor.caret_mut().set_line_number(0);
    let expected = editor.file().unwrap().get_character_at(1);
    assert_eq!(move_caret_left(&mut editor), expected);
}

// moving up

#[test]
fn assert_move_caret_with_top_of_filled_file() {
    let (mut editor, _config) = prepared_editor("test.txt", "he\nll\no");
    assert_eq!(move_caret_up(&mut editor), None);
}

#[test]
fn caret_manager_assert_move_caret_with_filled_file_up() {
    let (mut editor, _config) = prepared_editor("test.txt", "he\nll\no");
    editor.caret_mut().set_line_position(1);
    editor.caret_mut().set_line_number(1);
    editor.caret_mut().set_text_position(3);
    let expected = editor.file().unwrap().get_character_at(1);
    assert_eq!(move_caret_up(&mut editor), expected);
    assert_eq!(editor.caret().position(), &CaretPosition::new(1, 0, 1));
}

// moving down

#[test]
fn assert_move_caret_with_bottom_of_filled_file() {
    let (mut editor, _config) = prepared_editor("test.txt", "he\nll\no");
    editor.caret_mut().set_line_position(1);
    editor.caret_mut().set_line_number(2);
    editor.caret_mut().set_text_position(6);
    assert_eq!(move_caret_down(&mut editor), None);
}

#[test]
fn caret_manager_assert_move_caret_with_filled_file_down() {
    let (mut editor, _config) = prepared_editor("test.txt", "he\nll\nod");
    editor.caret_mut().set_line_position(1);
    editor.caret_mut().set_line_number(1);
    editor.caret_mut().set_text_position(3);
    let expected = editor.file().unwrap().get_character_at(6);
    assert_eq!(move_caret_down(&mut editor), expected);
    assert_eq!(editor.caret().position(), &CaretPosition::new(6, 2, 1));
}

// file path

#[test]
fn must_return_empty_string_when_no_file() {
    let config = build_config();
    let editor = FileEditor::new(&config);
    let result = current_file_path(&editor);
    assert_eq!(result, String::new());
}

#[test]
fn must_return_path_string_when_file_was_set() {
    let config = build_config();
    let mut editor = FileEditor::new(&config);
    let file = EditorFile::new("/foo/bar".to_owned(), "hello world".to_owned(), &config);
    editor.open_file(file);
    let result = current_file_path(&editor);
    assert_eq!(result, "/foo/bar".to_owned());
}

// typing

#[test]
fn assert_insert_text_without_file() {
    let config = build_config();
    let mut renderer = RendererMock;
    let mut widget = FileEditor::new(&config);
    widget.prepare_ui(&mut renderer, &config.theme.code_highlighting);
    widget.insert_text("foo".to_owned(), &mut renderer, &config);
    let expected = CaretPosition::new(0, 0, 0);
    assert_eq!(widget.caret().position(), &expected);
}

#[test]
fn assert_insert_text_to_empty_file() {
    let config = build_config();
    let mut renderer = RendererMock;
    let mut widget = FileEditor::new(&config);
    let file = EditorFile::new("".to_owned(), "".to_owned(), &config);
    widget.open_file(file);
    widget.prepare_ui(&mut renderer, &config.theme.code_highlighting);
    widget.insert_text("foo".to_owned(), &mut renderer, &config);
    let expected = CaretPosition::new(3, 0, 0);
    assert_eq!(widget.caret().position(), &expected);
}

#[test]
fn assert_insert_text_to_file_without_new_line() {
    let config = build_config();
    let mut renderer = RendererMock;
    let mut widget = FileEditor::new(&config);
    let mut file = EditorFile::new("".to_owned(), "bar".to_owned(), &config);
    file.prepare_ui(&mut renderer, &config.theme.code_highlighting);
    widget.open_file(file);
    widget.prepare_ui(&mut renderer, &config.theme.code_highlighting);
    widget.insert_text("foo".to_owned(), &mut renderer, &config);
    let expected = CaretPosition::new(3, 0, 0);
    assert_eq!(widget.caret().position(), &expected);
    assert_eq!(widget.file().is_some(), true);
    let buffer = widget.file().unwrap().buffer();
    assert_eq!(buffer, "foobar");
}

#[test]
fn assert_insert_text_to_file_with_new_line() {
    let config = build_config();
    let mut renderer = RendererMock;
    let mut widget = FileEditor::new(&config);
    let mut file = EditorFile::new("".to_owned(), "bar\n".to_owned(), &config);
    file.prepare_ui(&mut renderer, &config.theme.code_highlighting);
    widget.open_file(file);
    widget.prepare_ui(&mut renderer, &config.theme.code_highlighting);
    widget.insert_text("foo".to_owned(), &mut renderer, &config);
    let expected = CaretPosition::new(3, 0, 0);
    assert_eq!(widget.caret().position(), &expected);
    assert_eq!(widget.file().is_some(), true);
    let buffer = widget.file().unwrap().buffer();
    assert_eq!(buffer, "foobar\n");
}

#[test]
fn assert_insert_text_to_file_with_new_line_with_caret_at_new_line() {
    let config = build_config();
    let mut renderer = RendererMock;
    let mut widget = FileEditor::new(&config);
    let mut file = EditorFile::new("".to_owned(), "old content\n".to_owned(), &config);
    file.prepare_ui(&mut renderer, &config.theme.code_highlighting);
    widget.open_file(file);
    widget.prepare_ui(&mut renderer, &config.theme.code_highlighting);
    widget.set_caret_to_end_of_line(0);
    widget.insert_text("new content".to_owned(), &mut renderer, &config);
    let expected = CaretPosition::new(22, 0, 0);
    assert_eq!(widget.caret().position(), &expected);
    assert_eq!(widget.file().is_some(), true);
    let buffer = widget.file().unwrap().buffer();
    assert_eq!(buffer, "old contentnew content\n");
}

// line breaks

#[test]
fn assert_insert_new_line_without_file() {
    let config = build_config();
    let mut renderer = RendererMock;
    let mut widget = FileEditor::new(&config);
    widget.prepare_ui(&mut renderer, &config.theme.code_highlighting);
    let _ = widget.insert_new_line(&mut renderer, &config);
    let expected = CaretPosition::new(0, 0, 0);
    assert_eq!(widget.caret().position(), &expected);
    let expected = Rect::new(0, 0, 6, 15);
    assert_eq!(widget.caret().dest(), expected);
}

#[test]
fn assert_insert_new_line_to_empty_file() {
    let config = build_config();
    let mut renderer = RendererMock;
    let mut widget = FileEditor::new(&config);
    let file = EditorFile::new("".to_owned(), "".to_owned(), &config);
    widget.open_file(file);
    widget.prepare_ui(&mut renderer, &config.theme.code_highlighting);
    let _ = widget.insert_new_line(&mut renderer, &config);
    let expected = CaretPosition::new(1, 1, 0);
    assert_eq!(widget.caret().position(), &expected);
    let expected = Rect::new(0, 13, 6, 15);
    assert_eq!(widget.caret().dest(), expected);
}

#[test]
fn assert_insert_new_line_to_file_at_beginning() {
    let config = build_config();
    let mut renderer = RendererMock;
    let mut widget = FileEditor::new(&config);
    let file = EditorFile::new("".to_owned(), "foo".to_owned(), &config);
    widget.open_file(file);
    widget.prepare_ui(&mut renderer, &config.theme.code_highlighting);
    let _ = widget.insert_new_line(&mut renderer, &config);
    let expected = CaretPosition::new(1, 1, 0);
    assert_eq!(widget.caret().position(), &expected);
    let expected = Rect::new(0, 13, 6, 15);
    assert_eq!(widget.caret().dest(), expected);
    assert_eq!(widget.file().is_some(), true);
    assert_eq!(widget.file().unwrap().buffer(), "\nfoo".to_owned());
}

#[test]
fn assert_insert_new_line_to_file_in_middle() {
    let config = build_config();
    let mut renderer = RendererMock;
    let mut widget = FileEditor::new(&config);
    let mut file = EditorFile::new("hello.txt".to_owned(), "abcd".to_owned(), &config);
    file.prepare_ui(&mut renderer, &config.theme.code_highlighting);
    widget.open_file(file);
    widget.prepare_ui(&mut renderer, &config.theme.code_highlighting);
    widget.move_caret(MoveDirection::Right);
    widget.move_caret(MoveDirection::Right);
    let _ = widget.insert_new_line(&mut renderer, &config);
    let expected = CaretPosition::new(3, 1, 0);
    assert_eq!(widget.caret().position(), &expected);
    let expected = Rect::new(0, 13, 6, 15);
    assert_eq!(widget.caret().dest(), expected);
    assert_eq!(widget.file().is_some(), true);
    assert_eq!(widget.file().unwrap().buffer(), "ab\ncd".to_owned());
}

// the file

#[test]
fn assert_simple_iterations() {
    let config = build_config();
    let mut renderer = SimpleRendererMock;
    let mut file = EditorFile::new("./foo.txt".to_owned(), "a b c d".to_owned(), &config);
    file.prepare_ui(&mut renderer, &config.theme.code_highlighting);
    for (index, c) in file.characters().iter().enumerate() {
        match index {
            0 => assert_eq!(c.text_character(), 'a'),
            1 => assert_eq!(c.text_character(), ' '),
            2 => assert_eq!(c.text_character(), 'b'),
            3 => assert_eq!(c.text_character(), ' '),
            4 => assert_eq!(c.text_character(), 'c'),
            5 => assert_eq!(c.text_character(), ' '),
            6 => assert_eq!(c.text_character(), 'd'),
            _ => assert_eq!("must have 7 entries", "have more than 7 entries"),
        }
    }
}

#[test]
fn assert_path_txt() {
    let config = build_config();
    let widget = EditorFile::new("/example.txt".to_owned(), "".to_owned(), &config);
    assert_eq!(widget.path(), "/example.txt".to_owned());
}

#[test]
fn assert_path_rs() {
    let config = build_config();
    let widget = EditorFile::new("/example.rs".to_owned(), "".to_owned(), &config);
    assert_eq!(widget.path(), "/example.rs".to_owned());
}

#[test]
fn assert_empty_buffer() {
    let config = build_config();
    let widget = EditorFile::new("/example.txt".to_owned(), "".to_owned(), &config);
    assert_eq!(widget.buffer(), "".to_owned());
}

#[test]
fn assert_some_buffer() {
    let config = build_config();
    let widget = EditorFile::new("some.rs".to_owned(), "fn main(){}".to_owned(), &config);
    assert_eq!(widget.buffer(), "fn main(){}".to_owned());
}

#[test]
fn assert_initial_line_height() {
    let config = build_config();
    let widget = EditorFile::new("/example.txt".to_owned(), "".to_owned(), &config);
    assert_eq!(widget.line_height(), 0);
}

// the editor's file

#[test]
fn assert_has_file() {
    let config = build_config();
    let widget = FileEditor::new(&config);
    assert_eq!(widget.has_file(), false);
}

#[test]
fn drop_file_when_no_file_is_selected() {
    let config = build_config();
    let mut widget = FileEditor::new(&config);
    let result = widget.drop_file();
    assert!(result.is_none());
}

#[test]
fn drop_file_when_file_is_selected() {
    let config = build_config();
    let mut widget = FileEditor::new(&config);
    let file = build_testable_file("foo bar", &config);
    widget.open_file(file);
    let result = widget.drop_file();
    assert!(result.is_some())
}

#[test]
fn file_when_no_file_is_selected() {
    let config = build_config();
    let widget = FileEditor::new(&config);
    let result = widget.file();
    assert!(result.is_none());
}

#[test]
fn file_when_file_is_selected() {
    let config = build_config();
    let mut widget = FileEditor::new(&config);
    let file = build_testable_file("foo bar", &config);
    widget.open_file(file);
    let result = widget.file();
    assert!(result.is_some())
}

#[test]
fn replace_file() {
    let config = Config::new();
    let mut editor = FileEditor::new(&config);
    let first_file = EditorFile::new("./foo.txt".to_string(), "foo".to_string(), &config);
    let second_file = EditorFile::new("./bar.txt".to_string(), "bar".to_string(), &config);
    editor.open_file(first_file.clone());
    let result = editor.open_file(second_file.clone());
    assert_eq!(result.is_some(), true);
    let file = result.as_ref().unwrap();
    assert_eq!(file.path(), first_file.path());
    assert_eq!(file.buffer(), first_file.buffer());
}

#[test]
fn delete_front() {
    let config = build_config();
    let mut renderer = SimpleRendererMock;
    let mut widget = FileEditor::new(&config);
    widget.open_file(build_testable_file("foo bar", &config));
    widget.caret_mut().set_text_position(1);
    widget.delete_front(&mut renderer, &config);
    let buffer = widget.file().map_or_else(|| "".to_owned(), |f| f.buffer());
    assert_eq!(buffer, "oo bar".to_owned());
}

#[test]
fn delete_back() {
    let config = build_config();
    let mut renderer = SimpleRendererMock;
    let mut widget = FileEditor::new(&config);
    widget.open_file(build_testable_file("foo bar", &config));
    widget.caret_mut().set_text_position(6);
    widget.delete_back(&mut renderer, &config);
    let buffer = widget.file().map_or_else(|| "".to_owned(), |f| f.buffer());
    assert_eq!(buffer, "foo ba".to_owned());
}

#[test]
fn insert_text() {
    let config = build_config();
    let mut renderer = SimpleRendererMock;
    let mut widget = FileEditor::new(&config);
    widget.open_file(build_testable_file("foo bar", &config));
    widget.insert_text("hello world ".to_owned(), &mut renderer, &config);
    let buffer = widget.file().map_or_else(|| "".to_owned(), |f| f.buffer());
    assert_eq!(buffer, "hello world foo bar".to_owned());
}

#[test]
fn insert_new_line() {
    let config = build_config();
    let mut renderer = SimpleRendererMock;
    let mut widget = FileEditor::new(&config);
    widget.open_file(build_testable_file("foo bar", &config));
    assert!(widget.insert_new_line(&mut renderer, &config).is_ok());
    let buffer = widget.file().map_or_else(|| "".to_owned(), |f| f.buffer());
    assert_eq!(buffer, "\nfoo bar".to_owned());
}

#[test]
fn delete_current_line() {
    let config = build_config();
    let mut renderer = SimpleRendererMock;
    let mut widget = FileEditor::new(&config);
    widget.open_file(build_testable_file("foo bar\nfoz baz", &config));
    assert!(widget.delete_current_line(&mut renderer, &config).is_ok());
    let buffer = widget.file().map_or_else(|| "".to_owned(), |f| f.buffer());
    assert_eq!(buffer, "foz baz");
}

#[test]
fn resolve_line_from_point() {
    let config = build_config();
    let mut widget = FileEditor::new(&config);
    widget.open_file(build_testable_file("foo bar", &config));
    assert_eq!(widget.resolve_line_from_point(&Point::new(100, 100)), 0);
}

// own tests

#[test]
fn typing_then_backspace_gives_the_text_back() {
    let (mut editor, config) = prepared_editor("notes.txt", "ab\ncd");
    let mut renderer = SimpleRendererMock;
    editor.caret_mut().set_text_position(1);
    editor.insert_text("x".to_owned(), &mut renderer, &config);
    assert_eq!(editor.file().unwrap().buffer(), "axb\ncd");
    assert_eq!(editor.caret().text_position(), 2);
    editor.delete_front(&mut renderer, &config);
    assert_eq!(editor.file().unwrap().buffer(), "ab\ncd");
    assert_eq!(editor.caret().text_position(), 1);
}

#[test]
fn new_line_then_backspace_returns_to_the_line() {
    let (mut editor, config) = prepared_editor("notes.txt", "abcd");
    let mut renderer = SimpleRendererMock;
    editor.move_caret(MoveDirection::Right);
    editor.move_caret(MoveDirection::Right);
    assert!(editor.insert_new_line(&mut renderer, &config).is_ok());
    assert_eq!(editor.caret().position(), &CaretPosition::new(3, 1, 0));
    editor.caret_mut().set_text_position(3);
    editor.delete_front(&mut renderer, &config);
    assert_eq!(editor.file().unwrap().buffer(), "abcd");
    assert_eq!(editor.caret().position().line_number(), 0);
    assert_eq!(editor.caret().text_position(), 2);
}

#[test]
fn right_then_left_returns_the_caret() {
    let (mut editor, _config) = prepared_editor("notes.txt", "hello");
    editor.caret_mut().set_text_position(2);
    let right = move_caret_right(&mut editor);
    assert_eq!(right.map(|c| c.position()), Some(3));
    let left = move_caret_left(&mut editor);
    assert_eq!(left.map(|c| c.position()), Some(2));
    assert_eq!(editor.caret().text_position(), 2);
}

#[test]
fn right_stops_at_the_last_character() {
    let (mut editor, _config) = prepared_editor("notes.txt", "ab");
    editor.caret_mut().set_text_position(1);
    assert_eq!(move_caret_right(&mut editor), None);
    assert_eq!(editor.caret().text_position(), 1);
}

#[test]
fn delete_back_at_the_end_does_nothing() {
    let (mut editor, config) = prepared_editor("notes.txt", "ab");
    let mut renderer = SimpleRendererMock;
    editor.caret_mut().set_text_position(2);
    editor.delete_back(&mut renderer, &config);
    assert_eq!(editor.file().unwrap().buffer(), "ab");
}

#[test]
fn backspace_at_the_start_does_nothing() {
    let (mut editor, config) = prepared_editor("notes.txt", "ab");
    let mut renderer = SimpleRendererMock;
    editor.delete_front(&mut renderer, &config);
    assert_eq!(editor.file().unwrap().buffer(), "ab");
    assert_eq!(editor.caret().text_position(), 0);
}

#[test]
fn delete_middle_line() {
    let (mut editor, config) = prepared_editor("notes.txt", "one\ntwo\nthree");
    let mut renderer = SimpleRendererMock;
    editor.caret_mut().set_line_number(1);
    assert!(editor.delete_current_line(&mut renderer, &config).is_ok());
    assert_eq!(editor.file().unwrap().buffer(), "one\nthree");
    assert_eq!(editor.caret().position(), &CaretPosition::new(4, 1, 0));
}

#[test]
fn delete_last_line_without_break() {
    let (mut editor, config) = prepared_editor("notes.txt", "one\ntwo");
    let mut renderer = SimpleRendererMock;
    editor.caret_mut().set_line_number(1);
    assert!(editor.delete_current_line(&mut renderer, &config).is_ok());
    assert_eq!(editor.file().unwrap().buffer(), "one\n");
}

#[test]
fn end_of_line_falls_back_to_the_line_above() {
    let (mut editor, _config) = prepared_editor("notes.txt", "ab\ncd");
    editor.set_caret_to_end_of_line(5);
    assert_eq!(editor.caret().position(), &CaretPosition::new(5, 1, 0));
    let last = editor.file().unwrap().get_character_at(4).unwrap();
    assert_eq!(editor.caret().dest().x, last.dest().x + 13);
}

#[test]
fn line_from_point_counts_line_heights() {
    let (editor, _config) = prepared_editor("notes.txt", "ab\ncd");
    let top = editor.dest().y;
    assert_eq!(editor.file().unwrap().line_height(), 14);
    assert_eq!(editor.resolve_line_from_point(&Point::new(0, top + 30)), 2);
    assert_eq!(editor.resolve_line_from_point(&Point::new(0, top - 5)), 0);
}

#[test]
fn rust_file_is_lexed_as_rust() {
    let config = build_config();
    let file = EditorFile::new("main.rs".to_owned(), "fn main() {}".to_owned(), &config);
    assert_eq!(file.language(), Language::Rust);
    let file = EditorFile::new("notes".to_owned(), "x".to_owned(), &config);
    assert_eq!(file.language(), Language::PlainText);
}

#[test]
fn editor_area_leaves_the_margins() {
    let config = build_config();
    let editor = FileEditor::new(&config);
    let expected = Rect::new(
        config.editor_left_margin(),
        config.editor_top_margin(),
        config.width() - config.editor_left_margin() as u32,
        config.height() - config.editor_top_margin() as u32,
    );
    assert_eq!(editor.dest(), &expected);
}

#[test]
fn click_on_a_character_moves_the_caret_onto_it() {
    let (mut editor, _config) = prepared_editor("notes.txt", "ab\ncd");
    let d = *editor.dest();
    // 'c' is the fourth character, drawn at the start of the second line
    let c = editor.file().unwrap().get_character_at(3).unwrap();
    let point = Point::new(d.x + c.dest().x + 1, d.y + c.dest().y + 1);
    editor.on_left_click(&point, &rider::ui::UpdateContext::Nothing);
    assert_eq!(editor.caret().position(), &CaretPosition::new(3, 1, 0));
}

#[test]
fn click_past_the_text_goes_to_the_end_of_the_line() {
    let (mut editor, _config) = prepared_editor("notes.txt", "ab\ncd");
    let d = *editor.dest();
    let point = Point::new(d.x + 500, d.y + 1);
    editor.on_left_click(&point, &rider::ui::UpdateContext::Nothing);
    assert_eq!(editor.caret().position(), &CaretPosition::new(2, 0, 0));
}

#[test]
fn update_follows_the_window() {
    let mut config = build_config();
    let mut editor = FileEditor::new(&config);
    config.set_width(700);
    let r = editor.update(&config, &rider::ui::UpdateContext::ParentPosition(Point::new(100, 0)));
    assert_eq!(r, rider::events::UpdateResult::NoOp);
    assert_eq!(editor.dest().x, 100);
    assert_eq!(editor.dest().width, 600);
    assert_eq!(editor.dest().height, config.height() - config.editor_top_margin() as u32);
}

#[test]
fn layout_shows_the_text() {
    let (editor, _config) = prepared_editor("notes.txt", "fn a\n  b");
    let file = editor.file().unwrap();
    let shown: String = file.characters().iter().map(|c| c.text_character()).collect();
    assert_eq!(shown, file.buffer());
    for (i, c) in file.characters().iter().enumerate() {
        assert_eq!(c.position(), i);
    }
}

#[test]
fn caret_position_moved_back() {
    let p = CaretPosition::new(10, 3, 4);
    let q = p.moved(-2, 1, -4);
    assert_eq!(q, CaretPosition::new(8, 4, 0));
    assert_eq!(q.moved(2, -1, 4), p);
}

// the editor as a widget

#[test]
fn mod_assert_texture_path() {
    let config = build_config();
    let widget = FileEditor::new(&config);
    assert!(widget.texture_path().is_none());
}

#[test]
fn mod_assert_dest() {
    let config = build_config();
    let (x, y, mw, mh) = (config.editor_left_margin(), config.editor_top_margin(), config.width(), config.height());
    let widget = FileEditor::new(&config);
    let expected = Rect::new(x, y, mw - x as u32, mh - y as u32);
    assert_eq!(*widget.dest(), expected);
}

#[test]
fn mod_assert_set_dest() {
    let config = build_config();
    let mut widget = FileEditor::new(&config);
    widget.set_dest(Rect::new(100, 200, 300, 400));
    assert_eq!(widget.dest(), &Rect::new(100, 200, 300, 400));
}

#[test]
fn mod_assert_source() {
    let config = build_config();
    let widget = FileEditor::new(&config);
    assert_eq!(widget.source(), &Rect::new(10, 50, 1014, 810));
}

#[test]
fn mod_assert_set_source() {
    let config = build_config();
    let mut widget = FileEditor::new(&config);
    widget.set_source(&Rect::new(1, 2, 3, 4));
    assert_ne!(widget.source(), &Rect::new(1, 2, 3, 4));
}

#[test]
fn file_editor_assert_update() {
    let config = build_config();
    let mut widget = FileEditor::new(&config);
    let result = widget.update(&config, &rider::ui::UpdateContext::Nothing);
    assert_eq!(result, rider::events::UpdateResult::NoOp);
}

#[test]
fn mod_assert_on_left_click() {
    let config = build_config();
    let mut widget = FileEditor::new(&config);
    let result = widget.on_left_click(&Point::new(600, 800), &rider::ui::UpdateContext::Nothing);
    assert_eq!(result, rider::events::UpdateResult::NoOp);
}

#[test]
fn mod_assert_is_left_click_target() {
    let config = build_config();
    let widget = FileEditor::new(&config);
    let result = widget.is_left_click_target(&Point::new(600, 800), &rider::ui::UpdateContext::Nothing);
    assert_eq!(result, true);
}

#[test]
fn mod_assert_use_clipping() {
    let config = build_config();
    let widget = FileEditor::new(&config);
    assert_eq!(widget.use_clipping(), true);
}

#[test]
fn file_editor_assert_prepare_ui() {
    let config = build_config();
    let mut widget = FileEditor::new(&config);
    let result = widget.prepare_ui(&mut SimpleRendererMock, &config.theme.code_highlighting);
    assert_eq!(result, ());
}

#[test]
fn is_text_character_clicked() {
    let config = build_config();
    let mut widget = FileEditor::new(&config);
    widget.open_file(build_testable_file("foo bar", &config));
    assert_eq!(widget.is_text_character_clicked(&Point::new(1000, 1000)), false);
}

#[test]
fn is_editor_clicked() {
    let config = build_config();
    let mut widget = FileEditor::new(&config);
    widget.open_file(build_testable_file("foo bar", &config));
    assert_eq!(widget.is_editor_clicked(&Point::new(1000, 1000)), false);
}

// scrolling the editor

#[test]
fn editor_is_not_scrolled_at_first() {
    let config = build_config();
    let widget = FileEditor::new(&config);
    assert_eq!(widget.scroll(), Point::new(0, 0));
}

#[test]
fn scrolling_moves_by_speed_times_steps() {
    let config = build_config();
    let mut widget = FileEditor::new(&config);
    widget.scroll_by(0, 2, &config);
    assert_eq!(widget.scroll(), Point::new(0, -60));
}

#[test]
fn scrolling_stops_at_the_start() {
    let config = build_config();
    let mut widget = FileEditor::new(&config);
    widget.scroll_by(-1, -1, &config);
    assert_eq!(widget.scroll(), Point::new(0, 0));
}

#[test]
fn scrolling_goes_on_while_the_content_fits() {
    let (mut editor, config) = prepared_editor("notes.txt", "a\nb");
    editor.update(&config, &rider::ui::UpdateContext::Nothing);
    // the content is smaller than the viewport: it is never scrolled past
    // its end, so the steps go on
    editor.scroll_by(0, 3, &config);
    assert_eq!(editor.scroll(), Point::new(0, -90));
}

#[test]
fn scrolling_stops_at_the_end_of_the_content() {
    let text = "a\n".repeat(70);
    let (mut editor, config) = prepared_editor("notes.txt", &text);
    editor.update(&config, &rider::ui::UpdateContext::Nothing);
    let bar = editor.vertical_scroll_handler().unwrap();
    // a first line of 14, and 14 more for each of the 70 breaks
    assert_eq!(bar.full_height(), 14 + 70 * 14);
    assert_eq!(bar.viewport(), 810);
    editor.scroll_by(0, 6, &config);
    assert_eq!(editor.scroll(), Point::new(0, -180));
    // 30 more would pass the hidden 184: the bar stays
    editor.scroll_by(0, 1, &config);
    assert_eq!(editor.scroll(), Point::new(0, -180));
}

#[test]
fn full_rect_sums_the_lines() {
    let (editor, _config) = prepared_editor("notes.txt", "ab\ncde\nf");
    let file = editor.file().unwrap();
    // the first token opens the first line; each break adds its height;
    // the widest line is measured when a break closes it
    assert_eq!(file.full_rect(), Rect::new(0, 0, 13, 14 + 14 + 14));
}

#[test]
fn opening_another_path_resets_the_scroll() {
    let config = build_config();
    let mut widget = FileEditor::new(&config);
    widget.scroll_by(0, 1, &config);
    assert_eq!(widget.scroll(), Point::new(0, -30));
    widget.open_file(build_testable_file("foo", &config));
    assert_eq!(widget.scroll(), Point::new(0, 0));
}

#[test]
fn task_allowed_now_checks_the_caret() {
    let config = build_config();
    let mut widget = FileEditor::new(&config);
    widget.open_file(build_testable_file("ab", &config));
    widget.caret_mut().set_text_position(9);
    assert!(!widget.task_allowed_now(&rider::events::UpdateResult::DeleteFront));
    assert!(!widget.task_allowed_now(&rider::events::UpdateResult::InsertNewLine));
    assert!(widget.task_allowed_now(&rider::events::UpdateResult::DeleteBack));
    widget.caret_mut().set_text_position(1);
    assert!(widget.task_allowed_now(&rider::events::UpdateResult::Input("x".to_owned())));
}

#[test]
fn get_line_gives_the_characters_of_a_line_with_its_break() {
    let (editor, _config) = prepared_editor("notes.txt", "ab\ncd");
    let file = editor.file().unwrap();
    let first: String = file.get_line(0).unwrap().iter().map(|c| c.text_character()).collect();
    assert_eq!(first, "ab\n");
    let second: String = file.get_line(1).unwrap().iter().map(|c| c.text_character()).collect();
    assert_eq!(second, "cd");
    assert!(file.get_line(5).is_none());
}

#[test]
fn get_line_needs_a_layout() {
    let config = build_config();
    let file = build_testable_file("foo bar", &config);
    assert!(file.get_line(0).is_none());
}

#[test]
fn typing_keeps_the_scroll() {
    let (mut editor, config) = prepared_editor("notes.txt", "ab\ncd");
    editor.scroll_by(1, 1, &config);
    let before = editor.scroll();
    editor.insert_text("xy".to_owned(), &mut SimpleRendererMock, &config);
    editor.move_caret(MoveDirection::Left);
    editor.delete_back(&mut SimpleRendererMock, &config);
    assert_eq!(editor.scroll(), before);
    assert_eq!(before, Point::new(-30, -30));
}

#[test]
fn editor_file_assert_dest() {
    let config = build_config();
    let buffer = "".to_owned();
    let path = "/example.txt".to_owned();
    let widget = EditorFile::new(path, buffer, &config);
    let result = widget.dest().clone();
    let expected = Rect::new(0, 0, 1, 1);
    assert_eq!(result, expected);
}

#[test]
fn editor_file_assert_render_start_point() {
    let config = build_config();
    let buffer = "".to_owned();
    let path = "/example.txt".to_owned();
    let widget = EditorFile::new(path, buffer, &config);
    let result = widget.render_start_point().clone();
    let expected = Point::new(0, 0);
    assert_eq!(result, expected);
}
