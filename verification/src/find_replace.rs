//! The find/replace engine: literal multi-match search (case-sensitive or
//! case-insensitive), circular next/previous navigation, and single and
//! whole-document replacement.
//!
//! Match spans are character offsets into the original text; the scan is
//! left-to-right and non-overlapping, resuming after each match at the
//! match's end.

use vstd::prelude::*;
use crate::casefold::fold1;
use crate::casefold::fold_chars;
use crate::casefold::fold_seq;
use crate::text::copy_chars;
use crate::text::push_range;
use crate::text::str_to_chars;

verus! {

/// True when the query matches the text at offset `i` under the given case
/// rule.
pub open spec fn is_match_at(text: Seq<char>, query: Seq<char>, case_sensitive: bool, i: int) -> bool {
    &&& 0 <= i
    &&& i + query.len() <= text.len()
    &&& forall|j: int|
        0 <= j < query.len() ==> fold1(text[i + j], case_sensitive) == fold1(
            query[j],
            case_sensitive,
        )
}

/// The ordered list of match spans found scanning from offset `from`: matches
/// are found left to right, non-overlapping, and the scan resumes at each
/// match's end. An empty query yields no matches.
pub open spec fn match_list(text: Seq<char>, query: Seq<char>, case_sensitive: bool, from: int) -> Seq<
    (int, int),
>
    decreases text.len() - from,
{
    if query.len() == 0 || from < 0 || from + query.len() > text.len() {
        Seq::empty()
    } else if is_match_at(text, query, case_sensitive, from) {
        seq![(from, from + query.len() as int)] + match_list(
            text,
            query,
            case_sensitive,
            from + query.len() as int,
        )
    } else {
        match_list(text, query, case_sensitive, from + 1)
    }
}

/// The text from offset `from` on, with every match replaced.
pub open spec fn replaced_from(
    text: Seq<char>,
    query: Seq<char>,
    repl: Seq<char>,
    case_sensitive: bool,
    from: int,
) -> Seq<char>
    decreases text.len() - from,
{
    if from < 0 || from > text.len() {
        Seq::empty()
    } else if query.len() == 0 || from + query.len() > text.len() {
        text.subrange(from, text.len() as int)
    } else if is_match_at(text, query, case_sensitive, from) {
        repl + replaced_from(text, query, repl, case_sensitive, from + query.len() as int)
    } else {
        seq![text[from]] + replaced_from(text, query, repl, case_sensitive, from + 1)
    }
}

/// Match spans as the mathematical pairs the specs above speak of.
pub open spec fn spans_of(ms: Seq<(usize, usize)>) -> Seq<(int, int)> {
    ms.map_values(|m: (usize, usize)| (m.0 as int, m.1 as int))
}

/// Two searches with unchanged inputs yield identical match lists: the list
/// is a function of the text, the query and the case rule alone.
pub proof fn lemma_search_deterministic(
    text: Seq<char>,
    query: Seq<char>,
    case_sensitive: bool,
    r1: Seq<(int, int)>,
    r2: Seq<(int, int)>,
)
    requires
        r1 == match_list(text, query, case_sensitive, 0),
        r2 == match_list(text, query, case_sensitive, 0),
    ensures
        r1 == r2,
{
}

/// Offset drift correctness of replace-all: the `k`-th match's replacement
/// stands in the output at the match's own start, shifted by the cumulative
/// length delta (replacement length minus query length) introduced by the `k`
/// replacements before it.
pub proof fn lemma_replace_all_drift(
    text: Seq<char>,
    query: Seq<char>,
    repl: Seq<char>,
    case_sensitive: bool,
    from: int,
    k: int,
)
    requires
        0 <= k < match_list(text, query, case_sensitive, from).len(),
    ensures
        ({
            let ms = match_list(text, query, case_sensitive, from);
            let out = replaced_from(text, query, repl, case_sensitive, from);
            let start = ms[k].0 - from + k * (repl.len() - query.len());
            &&& 0 <= start
            &&& start + repl.len() <= out.len()
            &&& out.subrange(start, start + repl.len()) == repl
        }),
    decreases text.len() - from,
{
    let ms = match_list(text, query, case_sensitive, from);
    let out = replaced_from(text, query, repl, case_sensitive, from);
    let d = repl.len() - query.len();
    let qlen = query.len() as int;
    let rlen = repl.len() as int;
    if is_match_at(text, query, case_sensitive, from) {
        let tail = match_list(text, query, case_sensitive, from + qlen);
        let rest = replaced_from(text, query, repl, case_sensitive, from + qlen);
        assert(ms == seq![(from, from + qlen)] + tail);
        assert(out == repl + rest);
        if k == 0 {
            assert(ms[0] == (from, from + qlen));
            assert(0 * d == 0) by (nonlinear_arith);
            assert(out.subrange(0, rlen) =~= repl);
        } else {
            lemma_replace_all_drift(text, query, repl, case_sensitive, from + qlen, k - 1);
            assert(ms[k] == tail[k - 1]);
            let prior = tail[k - 1].0 - (from + qlen) + (k - 1) * d;
            assert((k - 1) * d + d == k * d) by (nonlinear_arith);
            let start = ms[k].0 - from + k * d;
            assert(start == rlen + prior);
            assert(out.subrange(start, start + rlen) =~= rest.subrange(prior, prior + rlen));
        }
    } else {
        let tail = match_list(text, query, case_sensitive, from + 1);
        let rest = replaced_from(text, query, repl, case_sensitive, from + 1);
        assert(ms == tail);
        assert(out == seq![text[from]] + rest);
        lemma_replace_all_drift(text, query, repl, case_sensitive, from + 1, k);
        let prior = tail[k].0 - (from + 1) + k * d;
        let start = ms[k].0 - from + k * d;
        assert(start == 1 + prior);
        assert(out.subrange(start, start + rlen) =~= rest.subrange(prior, prior + rlen));
    }
}

fn match_at(ft: &Vec<char>, fq: &Vec<char>, i: usize) -> (r: bool)
    requires
        i + fq@.len() <= ft@.len(),
    ensures
        r == (forall|j: int| 0 <= j < fq@.len() ==> ft@[i + j] == fq@[j]),
{
    let qlen = fq.len();
    let n = ft.len();
    let mut j: usize = 0;
    while j < qlen
        invariant
            j <= qlen == fq@.len(),
            n == ft@.len(),
            i + qlen <= ft@.len(),
            forall|k: int| 0 <= k < j ==> ft@[i + k] == fq@[k],
        decreases qlen - j,
    {
        if ft[i + j] != fq[j] {
            return false;
        }
        j = j + 1;
    }
    true
}

/// Search the text for the query, producing the ordered, non-overlapping
/// match spans as character offsets of the original text. Case-insensitive
/// search compares the per-scalar case-folded forms of text and query.
pub fn search_matches(text: &Vec<char>, query: &Vec<char>, case_sensitive: bool) -> (ms: Vec<
    (usize, usize),
>)
    ensures
        spans_of(ms@) == match_list(text@, query@, case_sensitive, 0),
        ms@.len() == match_list(text@, query@, case_sensitive, 0).len(),
{
    let mut ms: Vec<(usize, usize)> = Vec::new();
    let qlen = query.len();
    if qlen == 0 {
        proof {
            assert(spans_of(ms@) =~= match_list(text@, query@, case_sensitive, 0));
        }
        return ms;
    }
    let ft = fold_chars(text, case_sensitive);
    let fq = fold_chars(query, case_sensitive);
    let n = text.len();
    let mut i: usize = 0;
    while n - i >= qlen
        invariant
            i <= n,
            n == text@.len(),
            qlen == query@.len(),
            qlen >= 1,
            ft@ == fold_seq(text@, case_sensitive),
            fq@ == fold_seq(query@, case_sensitive),
            match_list(text@, query@, case_sensitive, 0) == spans_of(ms@) + match_list(
                text@,
                query@,
                case_sensitive,
                i as int,
            ),
        decreases n - i,
    {
        proof {
            assert(forall|x: int|
                0 <= x < text@.len() ==> ft@[x] == fold1(text@[x], case_sensitive));
            assert(forall|x: int|
                0 <= x < query@.len() ==> fq@[x] == fold1(query@[x], case_sensitive));
        }
        if match_at(&ft, &fq, i) {
            proof {
                assert forall|j: int|
                    0 <= j < query@.len() implies fold1(text@[i + j], case_sensitive) == fold1(
                    query@[j],
                    case_sensitive,
                ) by {
                    assert(ft@[i + j] == fq@[j]);
                }
                assert(is_match_at(text@, query@, case_sensitive, i as int));
            }
            let ghost prev = ms@;
            ms.push((i, i + qlen));
            proof {
                assert(spans_of(ms@) =~= spans_of(prev) + seq![(i as int, i + qlen)]);
                assert(spans_of(ms@) + match_list(text@, query@, case_sensitive, i + qlen)
                    =~= spans_of(prev) + (seq![(i as int, i + qlen)] + match_list(
                    text@,
                    query@,
                    case_sensitive,
                    i + qlen,
                )));
            }
            i = i + qlen;
        } else {
            proof {
                assert(!is_match_at(text@, query@, case_sensitive, i as int)) by {
                    if is_match_at(text@, query@, case_sensitive, i as int) {
                        assert forall|j: int| 0 <= j < fq@.len() implies ft@[i + j] == fq@[j] by {
                            assert(fold1(text@[i + j], case_sensitive) == fold1(
                                query@[j],
                                case_sensitive,
                            ));
                        }
                    }
                }
            }
            i = i + 1;
        }
    }
    proof {
        assert(match_list(text@, query@, case_sensitive, i as int) =~= Seq::<(int, int)>::empty());
        assert(spans_of(ms@) + Seq::<(int, int)>::empty() =~= spans_of(ms@));
    }
    ms
}

/// Replace every match of the query in the text, returning the new text.
/// Case-insensitive replacement locates matches in the case-folded text but
/// splices the replacement into the original text.
pub fn replace_all_chars(
    text: &Vec<char>,
    query: &Vec<char>,
    repl: &Vec<char>,
    case_sensitive: bool,
) -> (out: Vec<char>)
    ensures
        out@ == replaced_from(text@, query@, repl@, case_sensitive, 0),
{
    let qlen = query.len();
    if qlen == 0 {
        let out = copy_chars(text);
        proof {
            assert(text@.subrange(0, text@.len() as int) =~= text@);
        }
        return out;
    }
    let ft = fold_chars(text, case_sensitive);
    let fq = fold_chars(query, case_sensitive);
    let n = text.len();
    let mut out: Vec<char> = Vec::new();
    let mut i: usize = 0;
    while n - i >= qlen
        invariant
            i <= n,
            n == text@.len(),
            qlen == query@.len(),
            qlen >= 1,
            ft@ == fold_seq(text@, case_sensitive),
            fq@ == fold_seq(query@, case_sensitive),
            replaced_from(text@, query@, repl@, case_sensitive, 0) == out@ + replaced_from(
                text@,
                query@,
                repl@,
                case_sensitive,
                i as int,
            ),
        decreases n - i,
    {
        proof {
            assert(forall|x: int|
                0 <= x < text@.len() ==> ft@[x] == fold1(text@[x], case_sensitive));
            assert(forall|x: int|
                0 <= x < query@.len() ==> fq@[x] == fold1(query@[x], case_sensitive));
        }
        if match_at(&ft, &fq, i) {
            proof {
                assert forall|j: int|
                    0 <= j < query@.len() implies fold1(text@[i + j], case_sensitive) == fold1(
                    query@[j],
                    case_sensitive,
                ) by {
                    assert(ft@[i + j] == fq@[j]);
                }
                assert(is_match_at(text@, query@, case_sensitive, i as int));
            }
            let ghost prev = out@;
            push_range(&mut out, repl, 0, repl.len());
            proof {
                assert(repl@.subrange(0, repl@.len() as int) =~= repl@);
                assert(out@ + replaced_from(text@, query@, repl@, case_sensitive, i + qlen)
                    =~= prev + (repl@ + replaced_from(text@, query@, repl@, case_sensitive, i + qlen)));
            }
            i = i + qlen;
        } else {
            proof {
                assert(!is_match_at(text@, query@, case_sensitive, i as int)) by {
                    if is_match_at(text@, query@, case_sensitive, i as int) {
                        assert forall|j: int| 0 <= j < fq@.len() implies ft@[i + j] == fq@[j] by {
                            assert(fold1(text@[i + j], case_sensitive) == fold1(
                                query@[j],
                                case_sensitive,
                            ));
                        }
                    }
                }
            }
            let ghost prev = out@;
            out.push(text[i]);
            proof {
                assert(out@ + replaced_from(text@, query@, repl@, case_sensitive, i + 1)
                    =~= prev + (seq![text@[i as int]] + replaced_from(
                    text@,
                    query@,
                    repl@,
                    case_sensitive,
                    i + 1,
                )));
            }
            i = i + 1;
        }
    }
    while i < n
        invariant
            i <= n,
            n == text@.len(),
            qlen == query@.len(),
            qlen >= 1,
            n - i < qlen,
            replaced_from(text@, query@, repl@, case_sensitive, 0) == out@ + replaced_from(
                text@,
                query@,
                repl@,
                case_sensitive,
                i as int,
            ),
        decreases n - i,
    {
        let ghost prev = out@;
        out.push(text[i]);
        proof {
            assert(text@.subrange(i as int, n as int) =~= seq![text@[i as int]] + text@.subrange(
                i + 1,
                n as int,
            ));
            assert(out@ + replaced_from(text@, query@, repl@, case_sensitive, i + 1) =~= prev + (
            seq![text@[i as int]] + text@.subrange(i + 1, n as int)));
        }
        i = i + 1;
    }
    proof {
        assert(replaced_from(text@, query@, repl@, case_sensitive, n as int) =~= Seq::<
            char,
        >::empty());
        assert(out@ + Seq::<char>::empty() =~= out@);
    }
    out
}

/// Find/Replace panel state: the query, the ordered match spans over the
/// document content at the last recompute, and the index of the active match.
pub struct FindReplaceState {
    pub search_text: String,
    pub replace_text: String,
    pub case_sensitive: bool,
    pub current_match: usize,
    pub matches: Vec<(usize, usize)>,
}

impl Default for FindReplaceState {
    fn default() -> (r: Self)
        ensures
            r.search_text@ == Seq::<char>::empty(),
            r.replace_text@ == Seq::<char>::empty(),
            r.case_sensitive == false,
            r.current_match == 0,
            r.matches@ == Seq::<(usize, usize)>::empty(),
            r.wf(),
    {
        FindReplaceState {
            search_text: String::new(),
            replace_text: String::new(),
            case_sensitive: false,
            current_match: 0,
            matches: Vec::new(),
        }
    }
}

impl FindReplaceState {
    /// The active-match index stays inside the match list (and is pinned to 0
    /// while the list is empty).
    pub open spec fn wf(&self) -> bool {
        if self.matches@.len() == 0 {
            self.current_match == 0
        } else {
            (self.current_match as int) < self.matches@.len()
        }
    }

    /// The match spans as mathematical pairs.
    pub open spec fn spans(&self) -> Seq<(int, int)> {
        spans_of(self.matches@)
    }

    /// Recompute the match list against the given document content; the
    /// active match is reset to the first. An empty query yields an empty
    /// match list.
    pub fn perform_search(&mut self, content: &Vec<char>)
        ensures
            final(self).search_text == old(self).search_text,
            final(self).replace_text == old(self).replace_text,
            final(self).case_sensitive == old(self).case_sensitive,
            final(self).current_match == 0,
            final(self).spans() == match_list(
                content@,
                old(self).search_text@,
                old(self).case_sensitive,
                0,
            ),
            final(self).wf(),
    {
        self.current_match = 0;
        if self.search_text.as_str().is_empty() {
            self.matches = Vec::new();
            proof {
                assert(self.spans() =~= match_list(
                    content@,
                    self.search_text@,
                    self.case_sensitive,
                    0,
                ));
            }
            return ;
        }
        let q = str_to_chars(self.search_text.as_str());
        self.matches = search_matches(content, &q, self.case_sensitive);
    }

    /// Advance the active match circularly; a no-op when there are no
    /// matches.
    pub fn find_next(&mut self)
        requires
            old(self).wf(),
        ensures
            final(self).search_text == old(self).search_text,
            final(self).replace_text == old(self).replace_text,
            final(self).case_sensitive == old(self).case_sensitive,
            final(self).matches == old(self).matches,
            final(self).wf(),
            old(self).matches@.len() == 0 ==> final(self).current_match == old(
                self,
            ).current_match,
            old(self).matches@.len() > 0 ==> final(self).current_match as int == (old(
                self,
            ).current_match + 1) % (old(self).matches@.len() as int),
    {
        if self.matches.len() > 0 {
            self.current_match = (self.current_match + 1) % self.matches.len();
        }
    }

    /// Retreat the active match circularly; a no-op when there are no
    /// matches.
    pub fn find_previous(&mut self)
        requires
            old(self).wf(),
        ensures
            final(self).search_text == old(self).search_text,
            final(self).replace_text == old(self).replace_text,
            final(self).case_sensitive == old(self).case_sensitive,
            final(self).matches == old(self).matches,
            final(self).wf(),
            old(self).matches@.len() == 0 ==> final(self).current_match == old(
                self,
            ).current_match,
            old(self).matches@.len() > 0 ==> final(self).current_match as int == (if old(
                self,
            ).current_match == 0 {
                old(self).matches@.len() - 1
            } else {
                old(self).current_match - 1
            }),
    {
        if self.matches.len() > 0 {
            if self.current_match == 0 {
                self.current_match = self.matches.len() - 1;
            } else {
                self.current_match = self.current_match - 1;
            }
        }
    }
}

} // verus!
