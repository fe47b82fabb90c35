//! The file explorer's tree: nodes carrying a path, a directory flag and
//! children, with the explorer ordering (directories before files, siblings
//! alphabetically by name). Scanning the filesystem is the caller's business;
//! the tree itself and its ordering are modeled here.

use vstd::prelude::*;
use vstd::multiset::Multiset;
use vstd::string::StringExecFns;
use crate::text::chars_to_string;
use crate::text::push_range;
use crate::text::str_to_chars;

verus! {

broadcast use {vstd::seq_lib::group_to_multiset_ensures, vstd::multiset::group_multiset_axioms};

/// One entry of the file tree.
pub struct FileNode {
    pub path: String,
    pub is_dir: bool,
    pub children: Vec<FileNode>,
}

/// The index right after the last occurrence of `c` before `i` (or 0 when
/// there is none).
pub open spec fn after_last(s: Seq<char>, c: char, i: int) -> int
    decreases i,
{
    if i <= 0 {
        0
    } else if s[i - 1] == c {
        i
    } else {
        after_last(s, c, i - 1)
    }
}

/// The file name of `path[..e]`, under std's path model: trailing separators
/// are ignored, a trailing current-directory component (a lone dot) is
/// skipped, and a path whose last component is a parent-directory component
/// (two dots) — or that has no component at all — has no file name.
pub open spec fn base_name_upto(path: Seq<char>, e: int) -> Seq<char>
    decreases e,
{
    if e <= 0 {
        Seq::empty()
    } else if path[e - 1] == '/' {
        base_name_upto(path, e - 1)
    } else if path[e - 1] == '.' && (e == 1 || path[e - 2] == '/') {
        base_name_upto(path, e - 1)
    } else {
        let b = after_last(path, '/', e);
        if e - b == 2 && path[b] == '.' && path[b + 1] == '.' {
            Seq::empty()
        } else {
            path.subrange(b, e)
        }
    }
}

/// A path's file name: its last real component, empty when it has none.
pub open spec fn base_name(path: Seq<char>) -> Seq<char> {
    base_name_upto(path, path.len() as int)
}

/// A file name's extension: the suffix after the last dot, except that a
/// name with no dot past its first scalar (such as a bare name, or a
/// dotfile) falls back to "txt".
pub open spec fn extension_spec(name: Seq<char>) -> Seq<char> {
    let p = after_last(name, '.', name.len() as int);
    if p >= 2 {
        name.subrange(p, name.len() as int)
    } else {
        "txt"@
    }
}

proof fn lemma_after_last_bounds(s: Seq<char>, c: char, i: int)
    requires
        0 <= i,
    ensures
        0 <= after_last(s, c, i) <= i,
    decreases i,
{
    if i > 0 && s[i - 1] != c {
        lemma_after_last_bounds(s, c, i - 1);
    }
}

/// The file name of a path string: its last real component, as std's path
/// model reads it (trailing separators and lone-dot components ignored; a
/// path ending in a parent-directory component has no name).
pub fn file_name_of(path: &str) -> (s: String)
    ensures
        s@ == base_name(path@),
{
    let chars = str_to_chars(path);
    let n = chars.len();
    let mut e: usize = n;
    while e > 0 && (chars[e - 1] == '/' || (chars[e - 1] == '.' && (e == 1 || chars[e - 2] == '/')))
        invariant
            e <= n == chars@.len(),
            chars@ == path@,
            base_name_upto(chars@, n as int) == base_name_upto(chars@, e as int),
        decreases e,
    {
        e = e - 1;
    }
    if e == 0 {
        return String::new();
    }
    let mut b: usize = e;
    while b > 0 && chars[b - 1] != '/'
        invariant
            b <= e <= n == chars@.len(),
            chars@ == path@,
            after_last(chars@, '/', e as int) == after_last(chars@, '/', b as int),
        decreases b,
    {
        b = b - 1;
    }
    if e - b == 2 && chars[b] == '.' && chars[b + 1] == '.' {
        return String::new();
    }
    let mut out: Vec<char> = Vec::new();
    push_range(&mut out, &chars, b, e);
    proof {
        assert(out@ =~= chars@.subrange(b as int, e as int));
    }
    chars_to_string(&out)
}

/// A file name's extension, used for language detection and syntax lookup;
/// a name without one falls back to "txt".
pub fn extension_of(name: &str) -> (s: String)
    ensures
        s@ == extension_spec(name@),
{
    let chars = str_to_chars(name);
    let n = chars.len();
    let mut i: usize = n;
    while i > 0 && chars[i - 1] != '.'
        invariant
            i <= n == chars@.len(),
            chars@ == name@,
            after_last(chars@, '.', n as int) == after_last(chars@, '.', i as int),
        decreases i,
    {
        i = i - 1;
    }
    proof {
        lemma_after_last_bounds(chars@, '.', n as int);
    }
    if i >= 2 {
        let mut out: Vec<char> = Vec::new();
        push_range(&mut out, &chars, i, n);
        proof {
            assert(out@ =~= chars@.subrange(i as int, n as int));
        }
        chars_to_string(&out)
    } else {
        String::from_str("txt")
    }
}

/// Lexicographic order on scalar sequences, by code point.
pub open spec fn lex_le(a: Seq<char>, b: Seq<char>) -> bool
    decreases a.len(),
{
    if a.len() == 0 {
        true
    } else if b.len() == 0 {
        false
    } else if (a[0] as u32) < (b[0] as u32) {
        true
    } else if (a[0] as u32) > (b[0] as u32) {
        false
    } else {
        lex_le(a.drop_first(), b.drop_first())
    }
}

/// The explorer ordering: directories sort before files, and siblings sort
/// alphabetically by file name.
pub open spec fn node_le(a: FileNode, b: FileNode) -> bool {
    if a.is_dir != b.is_dir {
        a.is_dir
    } else {
        lex_le(base_name(a.path@), base_name(b.path@))
    }
}

/// The explorer ordering is total: of any two nodes, one sorts at or before
/// the other.
pub proof fn lemma_node_le_total(a: FileNode, b: FileNode)
    ensures
        node_le(a, b) || node_le(b, a),
{
    if a.is_dir == b.is_dir {
        lemma_lex_le_total(base_name(a.path@), base_name(b.path@));
    }
}

proof fn lemma_lex_le_total(a: Seq<char>, b: Seq<char>)
    ensures
        lex_le(a, b) || lex_le(b, a),
    decreases a.len(),
{
    if a.len() > 0 && b.len() > 0 && (a[0] as u32) == (b[0] as u32) {
        lemma_lex_le_total(a.drop_first(), b.drop_first());
    }
}

impl FileNode {
    /// A tree node for one directory entry; the caller supplies what its
    /// scan of the filesystem found.
    pub fn new(path: String, is_dir: bool, children: Vec<FileNode>) -> (n: Self)
        ensures
            n.path == path,
            n.is_dir == is_dir,
            n.children == children,
    {
        FileNode { path, is_dir, children }
    }

    /// The node's display name: the path's final component.
    pub fn name(&self) -> (s: String)
        ensures
            s@ == base_name(self.path@),
    {
        file_name_of(self.path.as_str())
    }
}

fn lex_le_exec(a: &Vec<char>, b: &Vec<char>) -> (r: bool)
    ensures
        r == lex_le(a@, b@),
{
    let an = a.len();
    let bn = b.len();
    let mut i: usize = 0;
    proof {
        assert(a@.skip(0) =~= a@);
        assert(b@.skip(0) =~= b@);
    }
    while i < an && i < bn
        invariant
            i <= an == a@.len(),
            i <= bn == b@.len(),
            lex_le(a@, b@) == lex_le(a@.skip(i as int), b@.skip(i as int)),
        decreases an - i,
    {
        let x = a[i] as u32;
        let y = b[i] as u32;
        if x < y {
            return true;
        }
        if x > y {
            return false;
        }
        proof {
            assert(a@.skip(i as int).drop_first() =~= a@.skip(i + 1));
            assert(b@.skip(i as int).drop_first() =~= b@.skip(i + 1));
        }
        i = i + 1;
    }
    i >= an
}

/// Whether `a` sorts at or before `b` in the explorer ordering.
pub fn node_le_exec(a: &FileNode, b: &FileNode) -> (r: bool)
    ensures
        r == node_le(*a, *b),
{
    if a.is_dir != b.is_dir {
        return a.is_dir;
    }
    let an = a.name();
    let bn = b.name();
    let av = str_to_chars(an.as_str());
    let bv = str_to_chars(bn.as_str());
    lex_le_exec(&av, &bv)
}

/// Sort sibling nodes into explorer order: directories first, then
/// alphabetically by name; the result holds exactly the given nodes.
pub fn sort_nodes(nodes: Vec<FileNode>) -> (out: Vec<FileNode>)
    ensures
        out@.len() == nodes@.len(),
        forall|k: int| 0 <= k && k + 1 < out@.len() ==> #[trigger] node_le(out@[k], out@[k + 1]),
        out@.to_multiset() == nodes@.to_multiset(),
{
    let mut out: Vec<FileNode> = Vec::new();
    let mut rest = nodes;
    while rest.len() > 0
        invariant
            out@.len() + rest@.len() == nodes@.len(),
            forall|k: int| 0 <= k && k + 1 < out@.len() ==> #[trigger] node_le(out@[k], out@[k + 1]),
            out@.to_multiset().add(rest@.to_multiset()) == nodes@.to_multiset(),
        decreases rest@.len(),
    {
        let ghost rest_before = rest@;
        let x = rest.remove(0);
        let ghost out_before = out@;
        let mut p: usize = 0;
        while p < out.len() && !node_le_exec(&x, &out[p])
            invariant
                p <= out@.len(),
                out@ == out_before,
                forall|k: int| 0 <= k < p ==> node_le(out@[k], x),
            decreases out@.len() - p,
        {
            proof {
                lemma_node_le_total(x, out@[p as int]);
            }
            p = p + 1;
        }
        out.insert(p, x);
        proof {
            out_before.insert_ensures(p as int, x);
            assert(out@.to_multiset() == out_before.to_multiset().insert(x));
            assert(rest@.to_multiset() == rest_before.to_multiset().remove(x));
            assert(rest_before.contains(x));
            assert(out@.to_multiset().add(rest@.to_multiset()) =~= out_before.to_multiset().add(
                rest_before.to_multiset(),
            ));
            assert forall|k: int| 0 <= k && k + 1 < out@.len() implies #[trigger] node_le(
                out@[k],
                out@[k + 1],
            ) by {
                if k + 1 < p {
                    assert(out@[k] == out_before[k]);
                    assert(out@[k + 1] == out_before[k + 1]);
                } else if k + 1 == p {
                    assert(out@[k] == out_before[k]);
                    assert(out@[k + 1] == x);
                } else if k == p {
                    assert(out@[k] == x);
                    assert(out@[k + 1] == out_before[k]);
                } else {
                    assert(out@[k] == out_before[k - 1]);
                    assert(out@[k + 1] == out_before[k]);
                }
            }
        }
    }
    proof {
        assert(rest@.to_multiset() =~= Multiset::<FileNode>::empty());
        assert(out@.to_multiset().add(Multiset::<FileNode>::empty()) =~= out@.to_multiset());
    }
    out
}

} // verus!
