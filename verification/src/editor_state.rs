//! State for a single editor tab.

use vstd::prelude::*;
use crate::cursor::CursorPosition;

verus! {

/// State for a single editor tab: the cursor, a cached modified flag for
/// display, and the range of visible lines used by the minimap viewport
/// indicator.
#[derive(Debug, Clone, Copy)]
pub struct EditorTabState {
    /// Current cursor position.
    pub cursor: CursorPosition,
    /// Whether the file has unsaved changes.
    pub is_modified: bool,
    /// Range of visible lines (for minimap viewport indicator).
    pub visible_lines: (usize, usize),
}

impl Default for EditorTabState {
    fn default() -> (r: Self)
        ensures
            r.cursor == (CursorPosition { line: 0, column: 0, offset: 0 }),
            r.is_modified == false,
            r.visible_lines == (1usize, 50usize),
    {
        EditorTabState { cursor: CursorPosition::default(), is_modified: false, visible_lines: (1, 50) }
    }
}

} // verus!
