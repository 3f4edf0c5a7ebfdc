//! Rendering of fixed-size pixel glyphs into binary animation streams for an
//! LED matrix, together with the small tools that surround the renderer: a
//! glyph-dictionary repository, a todo-list store, and response handling for a
//! joke/quote fetcher.

pub mod bitmap;
pub mod glyph;
pub mod glyph_cli;
pub mod json;
pub mod math_ops;
pub mod printer;
pub mod text;
pub mod todo_cli;
pub mod todo_repo;
pub mod wisecrack;
