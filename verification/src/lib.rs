//! Core of a small text editor: configuration, colour themes, lexers that
//! split source text into highlighted tokens, and the caret and buffer
//! model that the editing commands work on.

pub mod caret;
pub mod text;
pub mod lexers;
pub mod themes;
pub mod config;
pub mod geometry;
pub mod events;
pub mod editor;
pub mod renderer;
pub mod ui;
pub mod app_state;
