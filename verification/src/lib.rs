//! Core of a terminal-based modal text editor: a line-indexed text buffer,
//! a bounded cursor and viewport over it, a mode state machine, and a key
//! dispatcher, with the editing operations specified and verified against a
//! character-sequence model of the document.

pub mod buffer;
pub mod cursor;
pub mod key_handling;
pub mod laws;
pub mod line_index;
pub mod mode;
pub mod text;
pub mod window;
