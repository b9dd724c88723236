use rider::config::settings::Config;
use rider::editor::file::EditorFile;
use rider::editor::file_editor::FileEditor;
use rider::editor::text_character::CharacterSizeManager;
use rider::events::{push_event_tasks, resize_config, InputEvent, Key, UpdateResult, WheelDirection};
use rider::geometry::{Point, Rect};

fn tasks(event: InputEvent, ctrl: bool, shift: bool) -> Vec<UpdateResult> {
    let mut out = vec![];
    push_event_tasks(&mut out, event, ctrl, shift);
    out
}

#[test]
fn delete_deletes_next_character() {
    assert_eq!(tasks(InputEvent::KeyDown(Key::Delete), false, false), vec![UpdateResult::DeleteBack]);
}

#[test]
fn backspace_deletes_previous_character() {
    assert_eq!(tasks(InputEvent::KeyDown(Key::Backspace), false, false), vec![UpdateResult::DeleteFront]);
}

#[test]
fn shift_delete_deletes_line() {
    assert_eq!(tasks(InputEvent::KeyDown(Key::Delete), false, true), vec![UpdateResult::DeleteLine]);
}

#[test]
fn ctrl_o_opens_file() {
    assert_eq!(tasks(InputEvent::KeyDown(Key::O), true, false), vec![UpdateResult::OpenFileModal]);
    assert_eq!(tasks(InputEvent::KeyDown(Key::O), true, true), vec![]);
    assert_eq!(tasks(InputEvent::KeyDown(Key::O), false, false), vec![]);
}

#[test]
fn ctrl_s_saves() {
    assert_eq!(tasks(InputEvent::KeyDown(Key::S), true, false), vec![UpdateResult::SaveCurrentFile]);
    assert_eq!(tasks(InputEvent::KeyDown(Key::S), true, true), vec![UpdateResult::SaveCurrentFile]);
    assert_eq!(tasks(InputEvent::KeyDown(Key::S), false, false), vec![]);
}

#[test]
fn escape_closes_modal() {
    assert_eq!(tasks(InputEvent::KeyDown(Key::Escape), false, false), vec![UpdateResult::CloseModal]);
}

#[test]
fn enter_and_arrows() {
    assert_eq!(tasks(InputEvent::KeyDown(Key::Return), false, false), vec![UpdateResult::InsertNewLine]);
    assert_eq!(tasks(InputEvent::KeyDown(Key::KpEnter), false, false), vec![UpdateResult::InsertNewLine]);
    assert_eq!(tasks(InputEvent::KeyDown(Key::Left), false, false), vec![UpdateResult::MoveCaretLeft]);
    assert_eq!(tasks(InputEvent::KeyDown(Key::Right), false, false), vec![UpdateResult::MoveCaretRight]);
    assert_eq!(tasks(InputEvent::KeyDown(Key::Up), false, false), vec![UpdateResult::MoveCaretUp]);
    assert_eq!(tasks(InputEvent::KeyDown(Key::Down), false, false), vec![UpdateResult::MoveCaretDown]);
    assert_eq!(tasks(InputEvent::KeyDown(Key::Other), true, true), vec![]);
}

#[test]
fn mouse_and_window_events() {
    assert_eq!(tasks(InputEvent::Quit, false, false), vec![UpdateResult::Stop]);
    assert_eq!(
        tasks(InputEvent::MouseLeftUp { x: 3, y: 4 }, false, false),
        vec![UpdateResult::MouseDragStart(Point::new(3, 4)), UpdateResult::MouseLeftClicked(Point::new(3, 4))]
    );
    assert_eq!(
        tasks(InputEvent::MouseLeftDown { x: 3, y: 4 }, false, false),
        vec![UpdateResult::MouseDragStart(Point::new(3, 4))]
    );
    assert_eq!(
        tasks(InputEvent::MouseWheel { direction: WheelDirection::Flipped, x: 1, y: 5 }, false, false),
        vec![UpdateResult::Scroll { x: 1, y: -5 }]
    );
    assert_eq!(
        tasks(InputEvent::MouseWheel { direction: WheelDirection::Normal, x: 1, y: 5 }, false, false),
        vec![UpdateResult::Scroll { x: 1, y: 5 }]
    );
    assert_eq!(
        tasks(InputEvent::WindowResized { width: 800, height: 600 }, false, false),
        vec![UpdateResult::WindowResize { width: 800, height: 600 }]
    );
    assert_eq!(tasks(InputEvent::TextInput("a".to_owned()), false, false), vec![UpdateResult::Input("a".to_owned())]);
    assert_eq!(
        tasks(InputEvent::DropFile("/tmp/x".to_owned()), false, false),
        vec![UpdateResult::FileDropped("/tmp/x".to_owned())]
    );
}

#[test]
fn resize_keeps_non_positive_sides() {
    let mut config = Config::new();
    let (w, h) = (config.width(), config.height());
    resize_config(&mut config, 0, -3);
    assert_eq!((config.width(), config.height()), (w, h));
    resize_config(&mut config, 640, 480);
    assert_eq!((config.width(), config.height()), (640, 480));
}

struct Sizes;

impl CharacterSizeManager for Sizes {
    fn load_character_size(&mut self, _c: char) -> Rect {
        Rect::new(0, 0, 10, 12)
    }
}

#[test]
fn tasks_drive_the_editor() {
    let config = Config::new();
    let mut sizes = Sizes;
    let mut editor = FileEditor::new(&config);
    editor.open_file(EditorFile::new("a.txt".to_owned(), "ab".to_owned(), &config));
    editor.prepare_ui(&mut sizes, &config.theme.code_highlighting);
    assert!(editor.apply_task(&UpdateResult::MoveCaretRight, &mut sizes, &config));
    assert!(editor.apply_task(&UpdateResult::Input("xy".to_owned()), &mut sizes, &config));
    assert_eq!(editor.file().unwrap().buffer(), "axyb");
    assert!(editor.apply_task(&UpdateResult::DeleteFront, &mut sizes, &config));
    assert_eq!(editor.file().unwrap().buffer(), "axb");
    assert!(editor.apply_task(&UpdateResult::InsertNewLine, &mut sizes, &config));
    assert_eq!(editor.file().unwrap().buffer(), "ax\nb");
    assert!(editor.apply_task(&UpdateResult::DeleteLine, &mut sizes, &config));
    assert_eq!(editor.file().unwrap().buffer(), "ax\n");
    assert!(!editor.apply_task(&UpdateResult::SaveCurrentFile, &mut sizes, &config));
}
