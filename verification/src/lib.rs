//! The logic of a small desktop note editor: which files of a notes directory
//! are listed, what selecting, editing and toggling do to the editor's state,
//! and what each panel of the window shows. Drawing and file access are left
//! to the program around this library, which hands in plain values.

pub mod editor;
pub mod listing;
pub mod render;
pub mod screen;
pub mod store;
pub mod text;
