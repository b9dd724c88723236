//! What widgets and input ask the application to do.

use vstd::prelude::*;
use crate::caret::CaretPosition;
use crate::config::settings::Config;
use crate::geometry::{Point, Rect};

verus! {

/// A request that a widget or an input event hands to the application.
#[derive(Clone, Debug, PartialEq)]
pub enum UpdateResult {
    NoOp,
    Stop,
    RefreshPositions,
    MouseLeftClicked(Point),
    MouseDragStart(Point),
    MouseDragStop(Point),
    MoveCaret(Rect, CaretPosition),
    DeleteFront,
    DeleteBack,
    Input(String),
    InsertNewLine,
    MoveCaretLeft,
    MoveCaretRight,
    MoveCaretUp,
    MoveCaretDown,
    Scroll { x: i32, y: i32 },
    WindowResize { width: i32, height: i32 },
    RefreshFsTree,
    OpenFile(String),
    OpenDirectory(String),
    OpenFileModal,
    FileDropped(String),
    SaveCurrentFile,
    OpenSettings,
    DeleteLine,
    CloseModal,
}

/// The keys the editor responds to.
#[derive(Clone, Copy, Debug, PartialEq, Eq, Structural)]
pub enum Key {
    Backspace,
    Delete,
    Return,
    KpEnter,
    Left,
    Right,
    Up,
    Down,
    O,
    S,
    Escape,
    Other,
}

/// Which way the mouse wheel's motion is reported.
#[derive(Clone, Copy, Debug, PartialEq, Eq, Structural)]
pub enum WheelDirection {
    Normal,
    Flipped,
    Unknown,
}

/// An input event, as far as the editor tells events apart.
#[derive(Clone, Debug, PartialEq)]
pub enum InputEvent {
    Quit,
    MouseLeftUp { x: i32, y: i32 },
    MouseLeftDown { x: i32, y: i32 },
    DropFile(String),
    KeyDown(Key),
    TextInput(String),
    MouseWheel { direction: WheelDirection, x: i32, y: i32 },
    WindowResized { width: i32, height: i32 },
    Other,
}

/// The requests that a key makes, with a control key (left or right) and a shift
/// key held as given: backspace deletes the character before the caret,
/// delete the one after it (with shift, the whole line), enter breaks the
/// line, the arrows move the caret, control and `O` (without shift) opens a
/// file, control and `S` saves, escape closes the open dialog.
pub open spec fn key_tasks(key: Key, ctrl: bool, shift: bool) -> Seq<UpdateResult> {
    match key {
        Key::Backspace => seq![UpdateResult::DeleteFront],
        Key::Delete => if shift {
            seq![UpdateResult::DeleteLine]
        } else {
            seq![UpdateResult::DeleteBack]
        },
        Key::Return | Key::KpEnter => seq![UpdateResult::InsertNewLine],
        Key::Left => seq![UpdateResult::MoveCaretLeft],
        Key::Right => seq![UpdateResult::MoveCaretRight],
        Key::Up => seq![UpdateResult::MoveCaretUp],
        Key::Down => seq![UpdateResult::MoveCaretDown],
        Key::O => if ctrl && !shift {
            seq![UpdateResult::OpenFileModal]
        } else {
            Seq::empty()
        },
        Key::S => if ctrl {
            seq![UpdateResult::SaveCurrentFile]
        } else {
            Seq::empty()
        },
        Key::Escape => seq![UpdateResult::CloseModal],
        Key::Other => Seq::empty(),
    }
}

/// The requests that an event makes.
pub open spec fn event_tasks(event: InputEvent, ctrl: bool, shift: bool) -> Seq<UpdateResult> {
    match event {
        InputEvent::Quit => seq![UpdateResult::Stop],
        InputEvent::MouseLeftUp { x, y } => seq![
            UpdateResult::MouseDragStart(Point { x, y }),
            UpdateResult::MouseLeftClicked(Point { x, y }),
        ],
        InputEvent::MouseLeftDown { x, y } => seq![UpdateResult::MouseDragStart(Point { x, y })],
        InputEvent::DropFile(name) => seq![UpdateResult::FileDropped(name)],
        InputEvent::KeyDown(key) => key_tasks(key, ctrl, shift),
        InputEvent::TextInput(text) => seq![UpdateResult::Input(text)],
        InputEvent::MouseWheel { direction, x, y } => match direction {
            WheelDirection::Normal => seq![UpdateResult::Scroll { x, y }],
            WheelDirection::Flipped => seq![UpdateResult::Scroll { x, y: (-y) as i32 }],
            WheelDirection::Unknown => Seq::empty(),
        },
        InputEvent::WindowResized { width, height } => seq![UpdateResult::WindowResize { width, height }],
        InputEvent::Other => Seq::empty(),
    }
}

/// The requests that `event` makes, appended to `tasks`.
pub fn push_event_tasks(tasks: &mut Vec<UpdateResult>, event: InputEvent, ctrl: bool, shift: bool)
    requires
        event matches InputEvent::MouseWheel { direction, y, .. } ==> (direction == WheelDirection::Flipped ==> y
            > i32::MIN),
    ensures
        final(tasks)@ == old(tasks)@ + event_tasks(event, ctrl, shift),
{
    let ghost e = event;
    let ghost start = tasks@;
    match event {
        InputEvent::Quit => tasks.push(UpdateResult::Stop),
        InputEvent::MouseLeftUp { x, y } => {
            tasks.push(UpdateResult::MouseDragStart(Point::new(x, y)));
            tasks.push(UpdateResult::MouseLeftClicked(Point::new(x, y)));
        },
        InputEvent::MouseLeftDown { x, y } => tasks.push(UpdateResult::MouseDragStart(Point::new(x, y))),
        InputEvent::DropFile(name) => tasks.push(UpdateResult::FileDropped(name)),
        InputEvent::KeyDown(key) => match key {
            Key::Backspace => tasks.push(UpdateResult::DeleteFront),
            Key::Delete => {
                if shift {
                    tasks.push(UpdateResult::DeleteLine);
                } else {
                    tasks.push(UpdateResult::DeleteBack);
                }
            },
            Key::Return | Key::KpEnter => tasks.push(UpdateResult::InsertNewLine),
            Key::Left => tasks.push(UpdateResult::MoveCaretLeft),
            Key::Right => tasks.push(UpdateResult::MoveCaretRight),
            Key::Up => tasks.push(UpdateResult::MoveCaretUp),
            Key::Down => tasks.push(UpdateResult::MoveCaretDown),
            Key::O => {
                if ctrl && !shift {
                    tasks.push(UpdateResult::OpenFileModal);
                }
            },
            Key::S => {
                if ctrl {
                    tasks.push(UpdateResult::SaveCurrentFile);
                }
            },
            Key::Escape => tasks.push(UpdateResult::CloseModal),
            Key::Other => {},
        },
        InputEvent::TextInput(text) => tasks.push(UpdateResult::Input(text)),
        InputEvent::MouseWheel { direction, x, y } => match direction {
            WheelDirection::Normal => tasks.push(UpdateResult::Scroll { x, y }),
            WheelDirection::Flipped => tasks.push(UpdateResult::Scroll { x, y: -y }),
            WheelDirection::Unknown => {},
        },
        InputEvent::WindowResized { width, height } => tasks.push(UpdateResult::WindowResize { width, height }),
        InputEvent::Other => {},
    }
    proof {
        assert(tasks@ =~= start + event_tasks(e, ctrl, shift));
    }
}

/// A window resize: a width or height above zero replaces the configured one.
pub fn resize_config(config: &mut Config, width: i32, height: i32)
    ensures
        final(config).width == (if width > 0 { width as u32 } else { old(config).width }),
        final(config).height == (if height > 0 { height as u32 } else { old(config).height }),
        *final(config) == (Config { width: final(config).width, height: final(config).height, ..*old(config) }),
{
    if width > 0 {
        config.set_width(width as u32);
    }
    if height > 0 {
        config.set_height(height as u32);
    }
}

} // verus!
