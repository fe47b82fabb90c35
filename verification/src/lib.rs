//! The text-editing and search core of a code editor: the in-memory document
//! model, cursor/offset translation, bracket matching, auto-closing
//! delimiters, a find/replace engine with offset-drift-correct bulk
//! replacement, and the tab/session manager that ties them together.
//!
//! Every offset in the public contracts is a character (Unicode scalar)
//! offset, never a byte offset. The host around this crate does the painting
//! and the file and directory I/O; it hands the core plain values and reads
//! plain values back.

pub mod autoclose;
pub mod bracket;
pub mod casefold;
pub mod cursor;
pub mod document;
pub mod editor_state;
pub mod find_replace;
pub mod fs_tree;
pub mod icons;
pub mod ropebuf;
pub mod session;
pub mod status_bar;
pub mod text;
pub mod widgets;
