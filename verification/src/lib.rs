//! Core of a terminal file-browser / text-editor pair.
//!
//! The crate holds the input-routing, command-dispatch, modal and
//! text-buffer logic; everything that touches the terminal or the file
//! system stays outside and talks to this crate through plain values.

pub mod app;
pub mod binding;
pub mod command;
pub mod editor;
pub mod file_explorer;
pub mod keycode;
pub mod legend;
pub mod modal;
pub mod modal_variants;
pub mod sort_entries;
pub mod text;
pub mod text_editor;
pub mod window;
