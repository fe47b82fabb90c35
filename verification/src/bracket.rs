//! Bracket matching: given text and a cursor offset, find the paired bracket
//! by a nesting-depth scan, forward from an opener or backward from a closer.

use vstd::prelude::*;
use crate::text::str_to_chars;

verus! {

/// The closing counterpart of an opening bracket.
pub open spec fn bracket_close(c: char) -> Option<char> {
    match c {
        '(' => Some(')'),
        '[' => Some(']'),
        '{' => Some('}'),
        '<' => Some('>'),
        _ => None,
    }
}

/// The opening counterpart of a closing bracket.
pub open spec fn bracket_open(c: char) -> Option<char> {
    match c {
        ')' => Some('('),
        ']' => Some('['),
        '}' => Some('{'),
        '>' => Some('<'),
        _ => None,
    }
}

/// Forward scan for the closer that balances an opener, starting at `i` with
/// `depth` same-type pairs currently open; nothing is found in unbalanced
/// text.
pub open spec fn scan_forward(s: Seq<char>, opener: char, closer: char, i: int, depth: int) -> Option<
    int,
>
    decreases s.len() - i,
{
    if i < 0 || i >= s.len() {
        None
    } else if s[i] == opener {
        scan_forward(s, opener, closer, i + 1, depth + 1)
    } else if s[i] == closer {
        if depth == 1 {
            Some(i)
        } else {
            scan_forward(s, opener, closer, i + 1, depth - 1)
        }
    } else {
        scan_forward(s, opener, closer, i + 1, depth)
    }
}

/// Backward scan for the opener that balances a closer, examining `i` and
/// moving left.
pub open spec fn scan_backward(s: Seq<char>, opener: char, closer: char, i: int, depth: int) -> Option<
    int,
>
    decreases i + 1,
{
    if i < 0 || i >= s.len() {
        None
    } else if s[i] == closer {
        scan_backward(s, opener, closer, i - 1, depth + 1)
    } else if s[i] == opener {
        if depth == 1 {
            Some(i)
        } else {
            scan_backward(s, opener, closer, i - 1, depth - 1)
        }
    } else {
        scan_backward(s, opener, closer, i - 1, depth)
    }
}

/// The bracket pair found when the scalar at `pos` is itself a bracket:
/// `(opening offset, closing offset)`.
pub open spec fn bracket_match_at(s: Seq<char>, pos: int) -> Option<(int, int)> {
    match bracket_close(s[pos]) {
        Some(closer) => match scan_forward(s, s[pos], closer, pos + 1, 1) {
            Some(j) => Some((pos, j)),
            None => None,
        },
        None => match bracket_open(s[pos]) {
            Some(opener) => match scan_backward(s, opener, s[pos], pos - 1, 1) {
                Some(j) => Some((j, pos)),
                None => None,
            },
            None => None,
        },
    }
}

/// The pair reported for a cursor offset: the scalar at the offset is tried
/// first, then the scalar immediately before it.
pub open spec fn bracket_match(s: Seq<char>, off: int) -> Option<(int, int)> {
    if off < 0 || off >= s.len() {
        None
    } else if bracket_match_at(s, off) is Some {
        bracket_match_at(s, off)
    } else if off > 0 {
        bracket_match_at(s, off - 1)
    } else {
        None
    }
}

proof fn lemma_scan_forward_shape(s: Seq<char>, opener: char, closer: char, i: int, depth: int, j: int)
    requires
        scan_forward(s, opener, closer, i, depth) == Some(j),
    ensures
        i <= j < s.len(),
        s[j] == closer,
    decreases s.len() - i,
{
    if i < 0 || i >= s.len() {
    } else if s[i] == opener {
        lemma_scan_forward_shape(s, opener, closer, i + 1, depth + 1, j);
    } else if s[i] == closer {
        if depth != 1 {
            lemma_scan_forward_shape(s, opener, closer, i + 1, depth - 1, j);
        }
    } else {
        lemma_scan_forward_shape(s, opener, closer, i + 1, depth, j);
    }
}

proof fn lemma_scan_backward_shape(s: Seq<char>, opener: char, closer: char, i: int, depth: int, j: int)
    requires
        scan_backward(s, opener, closer, i, depth) == Some(j),
    ensures
        0 <= j <= i,
        j < s.len(),
        s[j] == opener,
    decreases i + 1,
{
    if i < 0 || i >= s.len() {
    } else if s[i] == closer {
        lemma_scan_backward_shape(s, opener, closer, i - 1, depth + 1, j);
    } else if s[i] == opener {
        if depth != 1 {
            lemma_scan_backward_shape(s, opener, closer, i - 1, depth - 1, j);
        }
    } else {
        lemma_scan_backward_shape(s, opener, closer, i - 1, depth, j);
    }
}

/// A reported pair is ordered, in bounds, and of one bracket type: the
/// opening offset holds an opener whose closing counterpart stands at the
/// closing offset.
pub proof fn lemma_bracket_match_shape(s: Seq<char>, off: int, a: int, b: int)
    requires
        bracket_match(s, off) == Some((a, b)),
    ensures
        0 <= a < b < s.len(),
        bracket_close(s[a]) == Some(s[b]),
{
    let pos = if bracket_match_at(s, off) is Some {
        off
    } else {
        off - 1
    };
    match bracket_close(s[pos]) {
        Some(closer) => {
            lemma_scan_forward_shape(s, s[pos], closer, pos + 1, 1, b);
        },
        None => {
            match bracket_open(s[pos]) {
                Some(opener) => {
                    lemma_scan_backward_shape(s, opener, s[pos], pos - 1, 1, a);
                },
                None => {},
            }
        },
    }
}

fn close_for(c: char) -> (r: Option<char>)
    ensures
        r == bracket_close(c),
{
    match c {
        '(' => Some(')'),
        '[' => Some(']'),
        '{' => Some('}'),
        '<' => Some('>'),
        _ => None,
    }
}

fn open_for(c: char) -> (r: Option<char>)
    ensures
        r == bracket_open(c),
{
    match c {
        ')' => Some('('),
        ']' => Some('['),
        '}' => Some('{'),
        '>' => Some('<'),
        _ => None,
    }
}

fn match_at_pos(chars: &Vec<char>, pos: usize) -> (r: Option<(usize, usize)>)
    requires
        pos < chars@.len(),
    ensures
        match r {
            Some(p) => bracket_match_at(chars@, pos as int) == Some((p.0 as int, p.1 as int)),
            None => bracket_match_at(chars@, pos as int) is None,
        },
{
    let c = chars[pos];
    if let Some(closer) = close_for(c) {
        let n = chars.len();
        let mut i: usize = pos + 1;
        let mut depth: usize = 1;
        while i < n
            invariant
                pos + 1 <= i <= n == chars@.len(),
                1 <= depth <= i,
                c == chars@[pos as int],
                bracket_close(c) == Some(closer),
                scan_forward(chars@, c, closer, pos + 1, 1) == scan_forward(
                    chars@,
                    c,
                    closer,
                    i as int,
                    depth as int,
                ),
            decreases n - i,
        {
            let ch = chars[i];
            if ch == c {
                depth = depth + 1;
            } else if ch == closer {
                if depth == 1 {
                    return Some((pos, i));
                }
                depth = depth - 1;
            }
            i = i + 1;
        }
        return None;
    }
    if let Some(opener) = open_for(c) {
        let n = chars.len();
        let mut i: usize = pos;
        let mut depth: usize = 1;
        while i > 0
            invariant
                n == chars@.len(),
                i <= pos < chars@.len(),
                1 <= depth <= pos - i + 1,
                c == chars@[pos as int],
                bracket_close(c) is None,
                bracket_open(c) == Some(opener),
                scan_backward(chars@, opener, c, pos - 1, 1) == scan_backward(
                    chars@,
                    opener,
                    c,
                    i - 1,
                    depth as int,
                ),
            decreases i,
        {
            let ch = chars[i - 1];
            if ch == c {
                depth = depth + 1;
            } else if ch == opener {
                if depth == 1 {
                    return Some((i - 1, pos));
                }
                depth = depth - 1;
            }
            i = i - 1;
        }
        return None;
    }
    None
}

/// Find the matching bracket position for a given cursor position.
///
/// The scalar at the cursor is checked first, then the scalar before it; for
/// an opener the text is scanned forward, for a closer backward, counting
/// nesting depth. Unbalanced text yields no match rather than an error.
pub fn find_matching_bracket(text: &str, cursor_offset: usize) -> (r: Option<(usize, usize)>)
    ensures
        match r {
            Some(p) => bracket_match(text@, cursor_offset as int) == Some(
                (p.0 as int, p.1 as int),
            ),
            None => bracket_match(text@, cursor_offset as int) is None,
        },
{
    let chars = str_to_chars(text);
    if cursor_offset >= chars.len() {
        return None;
    }
    let first = match_at_pos(&chars, cursor_offset);
    if first.is_some() {
        return first;
    }
    if cursor_offset > 0 {
        return match_at_pos(&chars, cursor_offset - 1);
    }
    None
}

} // verus!
