//! The logic of a small notepad-like text editor: the editor state and what
//! each command does to it, the window title, the line-number gutter and the
//! keyboard shortcuts.

mod chars;
pub mod behaviour;
pub mod laws;
pub mod path;
pub mod shortcuts;
pub mod state;
pub mod text;
