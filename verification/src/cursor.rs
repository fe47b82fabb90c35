//! Cursor/offset translation: a flat character offset into the document is
//! turned into a 1-indexed (line, column) pair for display.

use vstd::prelude::*;
use crate::ropebuf::rope_char_to_line;
use crate::ropebuf::rope_len_chars;
use crate::ropebuf::rope_line_to_char;
use crate::ropebuf::rope_text;
use crate::text::chars_to_string;
use crate::text::lemma_line_start_le;
use crate::text::lemma_newlines_in_le;
use crate::text::lemma_newlines_in_nonneg;
use crate::text::lemma_newlines_in_split;
use crate::text::line_start_from;
use crate::text::newlines_in;
use crate::text::str_to_chars;

verus! {

/// The 1-indexed display line of the scalar at offset `p`: one more than the
/// number of line feeds before it.
pub open spec fn line_of(s: Seq<char>, p: int) -> int {
    newlines_in(s, 0, p) + 1
}

/// The 1-indexed display column of the scalar at offset `p`: its distance
/// from the start of its line, plus one.
pub open spec fn column_of(s: Seq<char>, p: int) -> int {
    p - line_start_from(s, 0, newlines_in(s, 0, p)) + 1
}

/// An offset clamped so that it never indexes past the end of the text.
pub open spec fn clamped_offset(len: int, offset: int) -> int {
    if len == 0 {
        0
    } else if offset < len {
        offset
    } else {
        len - 1
    }
}

/// Tracks cursor position within the editor (1-indexed for display).
#[derive(Debug, Clone, Copy, PartialEq, Eq, Structural)]
pub struct CursorPosition {
    pub line: usize,
    pub column: usize,
    pub offset: usize,
}

pub open spec fn digit_char(d: int) -> char {
    if d == 0 {
        '0'
    } else if d == 1 {
        '1'
    } else if d == 2 {
        '2'
    } else if d == 3 {
        '3'
    } else if d == 4 {
        '4'
    } else if d == 5 {
        '5'
    } else if d == 6 {
        '6'
    } else if d == 7 {
        '7'
    } else if d == 8 {
        '8'
    } else {
        '9'
    }
}

/// The decimal digits of `n`, most significant first.
pub open spec fn decimal_chars(n: int) -> Seq<char>
    decreases n,
{
    if n < 10 {
        seq![digit_char(n)]
    } else {
        decimal_chars(n / 10).push(digit_char(n % 10))
    }
}

fn digit_exec(d: usize) -> (c: char)
    requires
        d < 10,
    ensures
        c == digit_char(d as int),
{
    if d == 0 {
        '0'
    } else if d == 1 {
        '1'
    } else if d == 2 {
        '2'
    } else if d == 3 {
        '3'
    } else if d == 4 {
        '4'
    } else if d == 5 {
        '5'
    } else if d == 6 {
        '6'
    } else if d == 7 {
        '7'
    } else if d == 8 {
        '8'
    } else {
        '9'
    }
}

fn push_decimal(out: &mut Vec<char>, n: usize)
    ensures
        final(out)@ == old(out)@ + decimal_chars(n as int),
    decreases n,
{
    if n < 10 {
        out.push(digit_exec(n));
        proof {
            assert(out@ =~= old(out)@ + decimal_chars(n as int));
        }
    } else {
        push_decimal(out, n / 10);
        out.push(digit_exec(n % 10));
        proof {
            assert(out@ =~= old(out)@ + decimal_chars(n as int));
        }
    }
}

impl Default for CursorPosition {
    fn default() -> (r: Self)
        ensures
            r.line == 0 && r.column == 0 && r.offset == 0,
    {
        CursorPosition { line: 0, column: 0, offset: 0 }
    }
}

impl CursorPosition {
    /// Convert character offset to line/column using the document rope.
    ///
    /// The offset is clamped to the text, so the translation never fails; an
    /// empty document yields exactly line 1, column 1, offset 0.
    pub fn from_char_offset(rope: &ropey::Rope, offset: usize) -> (r: Self)
        ensures
            r.offset == clamped_offset(rope_text(*rope).len() as int, offset as int),
            r.line == line_of(rope_text(*rope), r.offset as int),
            r.column == column_of(rope_text(*rope), r.offset as int),
            rope_text(*rope).len() == 0 ==> r == (CursorPosition { line: 1, column: 1, offset: 0 }),
    {
        let len = rope_len_chars(rope);
        if len == 0 {
            return CursorPosition { line: 1, column: 1, offset: 0 };
        }
        let safe = if offset < len {
            offset
        } else {
            len - 1
        };
        proof {
            lemma_newlines_in_le(rope_text(*rope), 0, safe as int);
            lemma_newlines_in_nonneg(rope_text(*rope), 0, safe as int);
            lemma_newlines_in_nonneg(rope_text(*rope), safe as int, len as int);
            lemma_newlines_in_split(rope_text(*rope), 0, safe as int, len as int);
        }
        let line_idx = rope_char_to_line(rope, safe);
        let line_start = rope_line_to_char(rope, line_idx);
        proof {
            lemma_line_start_le(rope_text(*rope), 0, safe as int);
        }
        CursorPosition { line: line_idx + 1, column: safe - line_start + 1, offset: safe }
    }

    /// Format as "Ln X, Col Y" for status bar display.
    pub fn display(&self) -> (s: String)
        ensures
            s@ == "Ln "@ + decimal_chars(self.line as int) + ", Col "@ + decimal_chars(
                self.column as int,
            ),
    {
        let mut v = str_to_chars("Ln ");
        push_decimal(&mut v, self.line);
        let mid = str_to_chars(", Col ");
        crate::text::push_range(&mut v, &mid, 0, mid.len());
        push_decimal(&mut v, self.column);
        proof {
            assert(mid@.subrange(0, mid@.len() as int) =~= mid@);
        }
        chars_to_string(&v)
    }
}

/// If the scalar at `i` is a line feed, the next line starts at `i + 1`.
proof fn lemma_line_start_after_newline(s: Seq<char>, j: int, i: int)
    requires
        0 <= j <= i < s.len(),
        s[i] == '\n',
    ensures
        line_start_from(s, j, newlines_in(s, j, i) + 1) == i + 1,
    decreases i - j,
{
    lemma_newlines_in_nonneg(s, j + 1, i);
    if j == i {
        assert(newlines_in(s, i, i) == 0);
        assert(line_start_from(s, i + 1, 0) == i + 1);
        assert(line_start_from(s, i, 1) == line_start_from(s, i + 1, 0));
    } else {
        lemma_line_start_after_newline(s, j + 1, i);
        if s[j] == '\n' {
            assert(newlines_in(s, j, i) == 1 + newlines_in(s, j + 1, i));
            assert(line_start_from(s, j, newlines_in(s, j, i) + 1) == line_start_from(
                s,
                j + 1,
                newlines_in(s, j + 1, i) + 1,
            ));
        } else {
            assert(newlines_in(s, j, i) == newlines_in(s, j + 1, i));
            assert(line_start_from(s, j, newlines_in(s, j, i) + 1) == line_start_from(
                s,
                j + 1,
                newlines_in(s, j + 1, i) + 1,
            ));
        }
    }
}

/// Scanning for a line start never lands before the scan's origin (nor before
/// the start of the text).
proof fn lemma_line_start_ge(s: Seq<char>, i: int, l: int)
    requires
        0 <= i,
    ensures
        line_start_from(s, i, l) >= 0,
    decreases s.len() - i,
{
    if l <= 0 {
    } else if i >= s.len() {
    } else {
        lemma_line_start_ge(s, i + 1, if s[i] == '\n' {
            l - 1
        } else {
            l
        });
    }
}

/// Convert character offset to 0-indexed (line, column) for rendering.
///
/// An offset past the end of the text yields the position of the end.
pub fn offset_to_line_col(text: &str, offset: usize) -> (r: (usize, usize))
    ensures
        ({
            let p = if offset as int <= text@.len() as int {
                offset as int
            } else {
                text@.len() as int
            };
            r.0 == newlines_in(text@, 0, p) && r.1 == p - line_start_from(
                text@,
                0,
                newlines_in(text@, 0, p),
            )
        }),
{
    let chars = str_to_chars(text);
    let n = chars.len();
    let p = if offset < n {
        offset
    } else {
        n
    };
    let mut line: usize = 0;
    let mut col: usize = 0;
    let mut i: usize = 0;
    while i < p
        invariant
            i <= p <= n == text@.len(),
            chars@ == text@,
            line == newlines_in(text@, 0, i as int),
            line_start_from(text@, 0, newlines_in(text@, 0, i as int)) <= i,
            col == i - line_start_from(text@, 0, newlines_in(text@, 0, i as int)),
        decreases p - i,
    {
        proof {
            lemma_newlines_in_split(text@, 0, i as int, i + 1);
            lemma_newlines_in_le(text@, 0, i as int);
            lemma_newlines_in_nonneg(text@, 0, i as int);
            lemma_line_start_le(text@, 0, i + 1);
            lemma_line_start_ge(text@, 0, newlines_in(text@, 0, i as int));
            assert(newlines_in(text@, i as int, i + 1) == (if text@[i as int] == '\n' {
                1int
            } else {
                0int
            }) + newlines_in(text@, i + 1, i + 1));
            if text@[i as int] == '\n' {
                lemma_line_start_after_newline(text@, 0, i as int);
            }
        }
        if chars[i] == '\n' {
            line = line + 1;
            col = 0;
        } else {
            col = col + 1;
        }
        i = i + 1;
    }
    (line, col)
}

} // verus!
