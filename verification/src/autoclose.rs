//! Auto-closing delimiters: after an edit that grew the text by exactly one
//! scalar, the closing counterpart of a just-typed opening delimiter is
//! inserted at the cursor, so the cursor ends up between the pair.

use vstd::prelude::*;
use crate::text::copy_chars;

verus! {

/// The auto-close mapping from an opening delimiter to its closing
/// counterpart; scalars outside the table map to nothing.
pub open spec fn closing_delimiter_spec(c: char) -> Option<char> {
    match c {
        '(' => Some(')'),
        '[' => Some(']'),
        '{' => Some('}'),
        '"' => Some('"'),
        '\'' => Some('\''),
        '`' => Some('`'),
        _ => None,
    }
}

/// The closing delimiter that the auto-close engine inserts after a
/// just-typed opening delimiter, if the scalar has one.
pub fn closing_delimiter(c: char) -> (r: Option<char>)
    ensures
        r == closing_delimiter_spec(c),
{
    match c {
        '(' => Some(')'),
        '[' => Some(']'),
        '{' => Some('}'),
        '"' => Some('"'),
        '\'' => Some('\''),
        '`' => Some('`'),
        _ => None,
    }
}

/// The text after the auto-close engine has seen an edit: if the text grew by
/// exactly one scalar and the scalar before the cursor is an opening
/// delimiter, its closing counterpart is inserted at the cursor; any other
/// edit leaves the text unchanged.
pub open spec fn auto_close_spec(text: Seq<char>, prev_count: int, cursor: int) -> Seq<char> {
    if text.len() == prev_count + 1 && 0 < cursor <= text.len() {
        match closing_delimiter_spec(text[cursor - 1]) {
            Some(closer) => text.insert(cursor, closer),
            None => text,
        }
    } else {
        text
    }
}

/// Applies the auto-close rule to a freshly edited text.
///
/// `prev_char_count` is the scalar count before the edit and `cursor_offset`
/// the cursor's character offset after it; only an edit that inserted exactly
/// one scalar can trigger an insertion, so a paste or a deletion never does.
pub fn auto_close(text: &Vec<char>, prev_char_count: usize, cursor_offset: usize) -> (out: Vec<
    char,
>)
    ensures
        out@ == auto_close_spec(text@, prev_char_count as int, cursor_offset as int),
{
    let mut out = copy_chars(text);
    if text.len() > 0 && text.len() - 1 == prev_char_count && cursor_offset > 0 && cursor_offset
        <= text.len() {
        if let Some(closer) = closing_delimiter(text[cursor_offset - 1]) {
            out.insert(cursor_offset, closer);
        }
    }
    out
}

} // verus!
