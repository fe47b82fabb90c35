//! The document's storage: a `ropey::Rope`, seen by the contracts as the
//! sequence of Unicode scalar values it holds.
//!
//! The crate is built with ropey's default features off, so the only line
//! break the rope recognizes is the line-feed scalar; every line-count
//! contract below is stated in terms of line-feed scalars.

use vstd::prelude::*;
use crate::text::newlines_in;
use crate::text::line_start_from;

verus! {

#[verifier::external_type_specification]
#[verifier::external_body]
pub struct ExRope(ropey::Rope);

/// The scalar values a rope holds, in order.
pub uninterp spec fn rope_text(r: ropey::Rope) -> Seq<char>;

/// Relies on ropey::Rope::from_str: builds a rope holding exactly the text it
/// is given.
#[verifier::external_body]
pub fn rope_from_chars(v: &Vec<char>) -> (r: ropey::Rope)
    ensures
        rope_text(r) == v@,
{
    let s: String = v.iter().collect();
    ropey::Rope::from_str(&s)
}

/// Relies on ropey::Rope::chars: iterates the rope's scalars in order.
#[verifier::external_body]
pub fn rope_to_chars(r: &ropey::Rope) -> (v: Vec<char>)
    ensures
        v@ == rope_text(*r),
{
    r.chars().collect()
}

/// Relies on ropey::Rope::len_chars: the total number of scalars in the rope.
#[verifier::external_body]
pub fn rope_len_chars(r: &ropey::Rope) -> (n: usize)
    ensures
        n == rope_text(*r).len(),
{
    r.len_chars()
}

/// Relies on ropey::Rope::len_lines: one more than the number of line breaks,
/// which with default features off are exactly the line-feed scalars.
#[verifier::external_body]
pub fn rope_len_lines(r: &ropey::Rope) -> (n: usize)
    ensures
        n == newlines_in(rope_text(*r), 0, rope_text(*r).len() as int) + 1,
{
    r.len_lines()
}

/// Relies on ropey::Rope::char_to_line: the line index of the scalar at
/// `char_idx`, equal to the count of line breaks before it; `char_idx` may be
/// one past the end.
#[verifier::external_body]
pub fn rope_char_to_line(r: &ropey::Rope, char_idx: usize) -> (line: usize)
    requires
        char_idx <= rope_text(*r).len(),
    ensures
        line == newlines_in(rope_text(*r), 0, char_idx as int),
{
    r.char_to_line(char_idx)
}

/// Relies on ropey::Rope::line_to_char: the character offset at which line
/// `line_idx` starts; a one-past-the-end line index yields the text length.
#[verifier::external_body]
pub fn rope_line_to_char(r: &ropey::Rope, line_idx: usize) -> (off: usize)
    requires
        line_idx <= newlines_in(rope_text(*r), 0, rope_text(*r).len() as int) + 1,
    ensures
        off == line_start_from(rope_text(*r), 0, line_idx as int),
{
    r.line_to_char(line_idx)
}

} // verus!
