//! The text being edited: its characters laid out on screen, the caret, and
//! the commands that move the caret and change the text.

pub mod caret;
pub mod content;
pub mod file;
pub mod file_editor;
pub mod laws;
pub mod moves;
pub mod text_character;
