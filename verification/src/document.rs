//! The text document: a mutable scalar sequence stored in a rope, the
//! snapshot of the content as of the last successful save or load, and the
//! per-tab display state.
//!
//! Being modified is defined as exact sequence inequality between the content
//! and the snapshot, never as an ad-hoc dirty flag.

use vstd::prelude::*;
use crate::autoclose::auto_close;
use crate::autoclose::auto_close_spec;
use crate::cursor::clamped_offset;
use crate::cursor::column_of;
use crate::cursor::line_of;
use crate::cursor::CursorPosition;
use crate::editor_state::EditorTabState;
use crate::ropebuf::rope_from_chars;
use crate::ropebuf::rope_len_chars;
use crate::ropebuf::rope_len_lines;
use crate::ropebuf::rope_text;
use crate::ropebuf::rope_to_chars;
use crate::text::chars_eq;
use crate::text::chars_to_string;
use crate::text::newlines_in;

verus! {

/// One open file: its path (the identity key among open documents), its
/// current content, and the content as of the last save or load.
pub struct TextDocument {
    pub path: String,
    pub buffer: ropey::Rope,
    pub saved_snapshot: Vec<char>,
    pub state: EditorTabState,
}

impl TextDocument {
    /// The document's content, as the sequence of scalar values the rope
    /// holds.
    pub open spec fn content(self) -> Seq<char> {
        rope_text(self.buffer)
    }

    /// The content as of the last successful save or load.
    pub open spec fn saved(self) -> Seq<char> {
        self.saved_snapshot@
    }

    /// A document freshly opened with the given content (the content read
    /// from the file, or empty when reading failed): unmodified, with the
    /// snapshot equal to the content.
    pub fn new(path: String, content: Vec<char>) -> (d: Self)
        ensures
            d.path == path,
            d.content() == content@,
            d.saved() == content@,
            d.state.is_modified == false,
            d.state.cursor == (CursorPosition { line: 0, column: 0, offset: 0 }),
            d.state.visible_lines == (1usize, 50usize),
    {
        let buffer = rope_from_chars(&content);
        TextDocument { path, buffer, saved_snapshot: content, state: EditorTabState::default() }
    }

    /// The content as a vector of scalar values.
    pub fn content_chars(&self) -> (v: Vec<char>)
        ensures
            v@ == self.content(),
    {
        rope_to_chars(&self.buffer)
    }

    /// The content as a string: what a save writes to disk.
    pub fn content_string(&self) -> (s: String)
        ensures
            s@ == self.content(),
    {
        let v = rope_to_chars(&self.buffer);
        chars_to_string(&v)
    }

    /// Total number of scalar values in the document.
    pub fn len_chars(&self) -> (n: usize)
        ensures
            n == self.content().len(),
    {
        rope_len_chars(&self.buffer)
    }

    /// Total number of lines in the document: one more than the number of
    /// line feeds.
    pub fn len_lines(&self) -> (n: usize)
        ensures
            n == newlines_in(self.content(), 0, self.content().len() as int) + 1,
    {
        rope_len_lines(&self.buffer)
    }

    /// Whether the document has unsaved changes: exact sequence inequality
    /// between content and snapshot.
    pub fn is_modified(&self) -> (r: bool)
        ensures
            r == (self.content() != self.saved()),
    {
        let v = rope_to_chars(&self.buffer);
        !chars_eq(&v, &self.saved_snapshot)
    }

    /// Replace the whole content, keeping the snapshot: the modified flag
    /// becomes the derived comparison against the snapshot.
    pub fn set_content(&mut self, text: Vec<char>)
        ensures
            final(self).path == old(self).path,
            final(self).content() == text@,
            final(self).saved() == old(self).saved(),
            final(self).state.is_modified == (text@ != old(self).saved()),
            final(self).state.cursor == old(self).state.cursor,
            final(self).state.visible_lines == old(self).state.visible_lines,
    {
        self.state.is_modified = !chars_eq(&text, &self.saved_snapshot);
        self.buffer = rope_from_chars(&text);
    }

    /// Take a freshly edited text into the document: the auto-close rule is
    /// applied against the previous scalar count, the cursor is re-derived
    /// from its offset (which stays between an auto-closed pair), and the
    /// modified flag is recomputed against the snapshot.
    pub fn apply_edit(&mut self, new_text: Vec<char>, cursor_offset: usize)
        ensures
            final(self).path == old(self).path,
            final(self).saved() == old(self).saved(),
            final(self).content() == auto_close_spec(
                new_text@,
                old(self).content().len() as int,
                cursor_offset as int,
            ),
            final(self).state.is_modified == (final(self).content() != old(self).saved()),
            final(self).state.visible_lines == old(self).state.visible_lines,
            final(self).state.cursor.offset == clamped_offset(
                final(self).content().len() as int,
                cursor_offset as int,
            ),
            final(self).state.cursor.line == line_of(
                final(self).content(),
                final(self).state.cursor.offset as int,
            ),
            final(self).state.cursor.column == column_of(
                final(self).content(),
                final(self).state.cursor.offset as int,
            ),
    {
        let prev = rope_len_chars(&self.buffer);
        let text = auto_close(&new_text, prev, cursor_offset);
        self.state.is_modified = !chars_eq(&text, &self.saved_snapshot);
        self.buffer = rope_from_chars(&text);
        self.state.cursor = CursorPosition::from_char_offset(&self.buffer, cursor_offset);
    }

    /// Record a successful save: the snapshot becomes the content and the
    /// document is unmodified until its next mutation. (On a failed write the
    /// caller must not call this, leaving the document untouched.)
    pub fn mark_saved(&mut self)
        ensures
            final(self).path == old(self).path,
            final(self).content() == old(self).content(),
            final(self).saved() == old(self).content(),
            final(self).state.is_modified == false,
            final(self).state.cursor == old(self).state.cursor,
            final(self).state.visible_lines == old(self).state.visible_lines,
    {
        self.saved_snapshot = rope_to_chars(&self.buffer);
        self.state.is_modified = false;
    }

    /// Re-derive the cursor from a character offset against the current
    /// content.
    pub fn update_cursor(&mut self, offset: usize)
        ensures
            final(self).path == old(self).path,
            final(self).content() == old(self).content(),
            final(self).saved() == old(self).saved(),
            final(self).state.is_modified == old(self).state.is_modified,
            final(self).state.visible_lines == old(self).state.visible_lines,
            final(self).state.cursor.offset == clamped_offset(
                old(self).content().len() as int,
                offset as int,
            ),
            final(self).state.cursor.line == line_of(
                old(self).content(),
                final(self).state.cursor.offset as int,
            ),
            final(self).state.cursor.column == column_of(
                old(self).content(),
                final(self).state.cursor.offset as int,
            ),
    {
        self.state.cursor = CursorPosition::from_char_offset(&self.buffer, offset);
    }

    /// Record the range of visible lines for the minimap viewport indicator.
    pub fn set_visible_lines(&mut self, range: (usize, usize))
        ensures
            final(self).path == old(self).path,
            final(self).content() == old(self).content(),
            final(self).saved() == old(self).saved(),
            final(self).state.is_modified == old(self).state.is_modified,
            final(self).state.cursor == old(self).state.cursor,
            final(self).state.visible_lines == range,
    {
        self.state.visible_lines = range;
    }
}

/// Round trip: what a save writes is what a load returns. A reloaded document
/// whose content is the saved payload holds exactly the saved document's
/// scalar sequence.
pub proof fn lemma_save_load_round_trip(d: TextDocument, payload: Seq<char>, reloaded: TextDocument)
    requires
        payload == d.content(),
        reloaded.content() == payload,
    ensures
        reloaded.content() == d.content(),
{
}

/// A document whose snapshot equals its content — as after a successful save
/// — is not modified, and stays so until its next mutation.
pub proof fn lemma_saved_document_unmodified(d: TextDocument)
    requires
        d.saved() == d.content(),
    ensures
        !(d.content() != d.saved()),
{
}

} // verus!
