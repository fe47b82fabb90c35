//! Spec-level model of text: sequences of Unicode scalar values addressed by
//! character offset, with line structure given by line-feed scalars.

use vstd::prelude::*;
use vstd::string::StrSliceExecFns;

verus! {

/// Number of line-feed scalars in `s[i..j]`.
pub open spec fn newlines_in(s: Seq<char>, i: int, j: int) -> int
    decreases j - i,
{
    if i >= j {
        0
    } else {
        (if s[i] == '\n' {
            1int
        } else {
            0int
        }) + newlines_in(s, i + 1, j)
    }
}

/// The character offset at which line `l` starts, scanning from offset `i`
/// (line breaks are line-feed scalars; a past-the-end line index yields the
/// text length).
pub open spec fn line_start_from(s: Seq<char>, i: int, l: int) -> int
    decreases s.len() - i,
{
    if l <= 0 {
        i
    } else if i >= s.len() {
        s.len() as int
    } else if s[i] == '\n' {
        line_start_from(s, i + 1, l - 1)
    } else {
        line_start_from(s, i + 1, l)
    }
}

pub proof fn lemma_newlines_in_nonneg(s: Seq<char>, i: int, j: int)
    ensures
        0 <= newlines_in(s, i, j),
    decreases j - i,
{
    if i < j {
        lemma_newlines_in_nonneg(s, i + 1, j);
    }
}

pub proof fn lemma_newlines_in_le(s: Seq<char>, i: int, j: int)
    requires
        i <= j,
    ensures
        newlines_in(s, i, j) <= j - i,
    decreases j - i,
{
    if i < j {
        lemma_newlines_in_le(s, i + 1, j);
    }
}

pub proof fn lemma_newlines_in_split(s: Seq<char>, i: int, p: int, j: int)
    requires
        i <= p <= j,
    ensures
        newlines_in(s, i, j) == newlines_in(s, i, p) + newlines_in(s, p, j),
    decreases p - i,
{
    if i < p {
        lemma_newlines_in_split(s, i + 1, p, j);
    }
}

/// The start of the line containing offset `p` lies at or before `p`.
pub proof fn lemma_line_start_le(s: Seq<char>, i: int, p: int)
    requires
        0 <= i <= p <= s.len(),
    ensures
        line_start_from(s, i, newlines_in(s, i, p)) <= p,
    decreases p - i,
{
    if i < p {
        lemma_newlines_in_nonneg(s, i + 1, p);
        if s[i] == '\n' {
            lemma_line_start_le(s, i + 1, p);
        } else {
            if newlines_in(s, i + 1, p) == 0 {
            } else {
                lemma_line_start_le(s, i + 1, p);
            }
        }
    }
}

/// The characters of a string slice, as a vector of scalar values.
pub fn str_to_chars(s: &str) -> (v: Vec<char>)
    ensures
        v@ == s@,
{
    let n: usize = s.unicode_len();
    let mut v: Vec<char> = Vec::new();
    let mut i: usize = 0;
    while i < n
        invariant
            i <= n,
            n == s@.len(),
            v@ == s@.subrange(0, i as int),
        decreases n - i,
    {
        let c = s.get_char(i);
        v.push(c);
        proof {
            assert(v@ =~= s@.subrange(0, i + 1));
        }
        i = i + 1;
    }
    proof {
        assert(s@.subrange(0, n as int) =~= s@);
    }
    v
}

/// Relies on String's FromIterator impl over char: collecting scalars yields
/// the string holding exactly those scalars, in order.
#[verifier::external_body]
pub fn chars_to_string(v: &Vec<char>) -> (s: String)
    ensures
        s@ == v@,
{
    v.iter().collect()
}

/// Exact equality of two scalar sequences.
pub fn chars_eq(a: &Vec<char>, b: &Vec<char>) -> (r: bool)
    ensures
        r == (a@ == b@),
{
    if a.len() != b.len() {
        return false;
    }
    let n = a.len();
    let mut i: usize = 0;
    while i < n
        invariant
            i <= n,
            n == a@.len() == b@.len(),
            forall|k: int| 0 <= k < i ==> a@[k] == b@[k],
        decreases n - i,
    {
        if a[i] != b[i] {
            return false;
        }
        i = i + 1;
    }
    proof {
        assert(a@ =~= b@);
    }
    true
}

/// `s` ends with `suffix`.
pub open spec fn seq_ends_with(s: Seq<char>, suffix: Seq<char>) -> bool {
    s.len() >= suffix.len() && s.subrange(s.len() - suffix.len(), s.len() as int) == suffix
}

/// `s` starts with `prefix`.
pub open spec fn seq_starts_with(s: Seq<char>, prefix: Seq<char>) -> bool {
    s.len() >= prefix.len() && s.subrange(0, prefix.len() as int) == prefix
}

/// Whether the scalars of `s` end with the scalars of `suffix`.
pub fn chars_ends_with(s: &Vec<char>, suffix: &str) -> (r: bool)
    ensures
        r == seq_ends_with(s@, suffix@),
{
    let suf = str_to_chars(suffix);
    let m = suf.len();
    let n = s.len();
    if m > n {
        return false;
    }
    let base = n - m;
    let mut j: usize = 0;
    while j < m
        invariant
            j <= m <= n,
            n == s@.len(),
            m == suf@.len(),
            suf@ == suffix@,
            base == n - m,
            forall|k: int| 0 <= k < j ==> s@[base + k] == suf@[k],
        decreases m - j,
    {
        if s[base + j] != suf[j] {
            proof {
                assert(!seq_ends_with(s@, suffix@)) by {
                    if s@.subrange(n - m, n as int) == suffix@ {
                        assert(s@.subrange(n - m, n as int)[j as int] == s@[base + j]);
                    }
                }
            }
            return false;
        }
        j = j + 1;
    }
    proof {
        assert(s@.subrange(n - m, n as int) =~= suffix@);
    }
    true
}

/// Whether the scalars of `s` start with the scalars of `prefix`.
pub fn chars_starts_with(s: &Vec<char>, prefix: &str) -> (r: bool)
    ensures
        r == seq_starts_with(s@, prefix@),
{
    let pre = str_to_chars(prefix);
    let m = pre.len();
    let n = s.len();
    if m > n {
        return false;
    }
    let mut j: usize = 0;
    while j < m
        invariant
            j <= m <= n,
            n == s@.len(),
            m == pre@.len(),
            pre@ == prefix@,
            forall|k: int| 0 <= k < j ==> s@[k] == pre@[k],
        decreases m - j,
    {
        if s[j] != pre[j] {
            proof {
                assert(!seq_starts_with(s@, prefix@)) by {
                    if s@.subrange(0, m as int) == prefix@ {
                        assert(s@.subrange(0, m as int)[j as int] == s@[j as int]);
                    }
                }
            }
            return false;
        }
        j = j + 1;
    }
    proof {
        assert(s@.subrange(0, m as int) =~= prefix@);
    }
    true
}

/// Whether the scalars of `s` are exactly those of `t`.
pub fn chars_eq_str(s: &Vec<char>, t: &str) -> (r: bool)
    ensures
        r == (s@ == t@),
{
    let tv = str_to_chars(t);
    chars_eq(s, &tv)
}

/// A copy of a scalar vector.
pub fn copy_chars(v: &Vec<char>) -> (out: Vec<char>)
    ensures
        out@ == v@,
{
    let n = v.len();
    let mut out: Vec<char> = Vec::new();
    let mut i: usize = 0;
    while i < n
        invariant
            i <= n,
            n == v@.len(),
            out@ == v@.subrange(0, i as int),
        decreases n - i,
    {
        out.push(v[i]);
        proof {
            assert(out@ =~= v@.subrange(0, i + 1));
        }
        i = i + 1;
    }
    proof {
        assert(v@.subrange(0, n as int) =~= v@);
    }
    out
}

/// Appends `v[from..to]` to `out`.
pub fn push_range(out: &mut Vec<char>, v: &Vec<char>, from: usize, to: usize)
    requires
        from <= to <= v@.len(),
    ensures
        final(out)@ == old(out)@ + v@.subrange(from as int, to as int),
{
    let mut i: usize = from;
    while i < to
        invariant
            from <= i <= to <= v@.len(),
            out@ == old(out)@ + v@.subrange(from as int, i as int),
        decreases to - i,
    {
        out.push(v[i]);
        proof {
            assert(out@ =~= old(out)@ + v@.subrange(from as int, i + 1));
        }
        i = i + 1;
    }
}

/// The text with `v[from..to]` replaced by `repl`.
pub fn splice_chars(v: &Vec<char>, from: usize, to: usize, repl: &Vec<char>) -> (out: Vec<char>)
    requires
        from <= to <= v@.len(),
    ensures
        out@ == v@.subrange(0, from as int) + repl@ + v@.subrange(to as int, v@.len() as int),
{
    let mut out: Vec<char> = Vec::new();
    push_range(&mut out, v, 0, from);
    push_range(&mut out, repl, 0, repl.len());
    push_range(&mut out, v, to, v.len());
    proof {
        assert(repl@.subrange(0, repl@.len() as int) =~= repl@);
        assert(Seq::<char>::empty() + v@.subrange(0, from as int) =~= v@.subrange(0, from as int));
    }
    out
}

} // verus!
