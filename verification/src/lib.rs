//! The editing core of a terminal text editor: gap-buffered lines, the
//! cursor and viewport model, and the session state that ties them together.

pub mod app;
pub mod cursor;
pub mod document;
pub mod gap_buffer;
pub mod handler;
mod text;
pub mod ui;
