//! Per-scalar case folding for case-insensitive search.
//!
//! Folding one scalar at a time keeps offsets stable: the folded text has
//! exactly one scalar for each scalar of the source, so match positions found
//! in the folded text are valid character offsets of the source text.

use vstd::prelude::*;

verus! {

/// The case-folded form of one scalar: the first scalar of its lowercase
/// mapping.
pub uninterp spec fn folded(c: char) -> char;

/// Relies on char::to_lowercase: it yields the lowercase mapping of the
/// scalar as one or more scalars, depending on the scalar alone; this takes
/// the first of them (for the vast majority of scalars the mapping is a
/// single scalar).
#[verifier::external_body]
pub fn fold_char(c: char) -> (r: char)
    ensures
        r == folded(c),
{
    c.to_lowercase().next().unwrap()
}

/// One scalar as the search comparison sees it: folded when the search is
/// case-insensitive, unchanged when it is case-sensitive.
pub open spec fn fold1(c: char, case_sensitive: bool) -> char {
    if case_sensitive {
        c
    } else {
        folded(c)
    }
}

/// A whole text as the search comparison sees it.
pub open spec fn fold_seq(s: Seq<char>, case_sensitive: bool) -> Seq<char> {
    s.map_values(|c: char| fold1(c, case_sensitive))
}

/// Folds every scalar of `v` (or copies it unchanged when case-sensitive).
pub fn fold_chars(v: &Vec<char>, case_sensitive: bool) -> (out: Vec<char>)
    ensures
        out@ == fold_seq(v@, case_sensitive),
{
    let n = v.len();
    let mut out: Vec<char> = Vec::new();
    let mut i: usize = 0;
    while i < n
        invariant
            i <= n,
            n == v@.len(),
            out@.len() == i,
            forall|k: int| 0 <= k < i ==> out@[k] == fold1(v@[k], case_sensitive),
        decreases n - i,
    {
        let c = if case_sensitive {
            v[i]
        } else {
            fold_char(v[i])
        };
        out.push(c);
        i = i + 1;
    }
    proof {
        assert(out@ =~= fold_seq(v@, case_sensitive));
    }
    out
}

} // verus!
