//! The tab/session manager: the set of open documents, which one is active,
//! and the find/replace dispatch against the active document.

use vstd::prelude::*;
use crate::document::TextDocument;
use crate::find_replace::match_list;
use crate::find_replace::replaced_from;
use crate::find_replace::replace_all_chars;
use crate::find_replace::FindReplaceState;
use crate::text::splice_chars;
use crate::text::str_to_chars;

verus! {

/// The editing session: open documents (with unique paths), the active tab,
/// and the find/replace panel state.
pub struct EditorSession {
    pub workspace: Option<String>,
    pub tree: Vec<crate::fs_tree::FileNode>,
    pub open_files: Vec<TextDocument>,
    pub active_tab: usize,
    pub find_replace: FindReplaceState,
}

impl Default for EditorSession {
    fn default() -> (s: Self)
        ensures
            s.wf(),
            s.open_files@.len() == 0,
            s.active_tab == 0,
    {
        EditorSession::new()
    }
}

impl EditorSession {
    /// The active tab stays in bounds (and is pinned to 0 while no document
    /// is open), open documents have pairwise distinct paths, and the
    /// find/replace state is well formed.
    pub open spec fn wf(&self) -> bool {
        &&& (self.open_files@.len() == 0 ==> self.active_tab == 0)
        &&& (self.open_files@.len() > 0 ==> (self.active_tab as int) < self.open_files@.len())
        &&& self.find_replace.wf()
        &&& (forall|i: int, j: int|
            0 <= i < j < self.open_files@.len() ==> self.open_files@[i].path@
                != self.open_files@[j].path@)
    }

    /// The content of the active document (meaningful while one is open).
    pub open spec fn active_content(&self) -> Seq<char> {
        self.open_files@[self.active_tab as int].content()
    }

    /// A session with no workspace and no open documents.
    pub fn new() -> (s: Self)
        ensures
            s.wf(),
            s.workspace is None,
            s.tree@.len() == 0,
            s.open_files@.len() == 0,
            s.active_tab == 0,
            s.find_replace.search_text@ == Seq::<char>::empty(),
            s.find_replace.replace_text@ == Seq::<char>::empty(),
            s.find_replace.case_sensitive == false,
            s.find_replace.matches@.len() == 0,
            s.find_replace.current_match == 0,
    {
        EditorSession {
            workspace: None,
            tree: Vec::new(),
            open_files: Vec::new(),
            active_tab: 0,
            find_replace: FindReplaceState::default(),
        }
    }

    /// Take a freshly chosen workspace root and the tree the caller's scan
    /// of it produced.
    pub fn open_folder(&mut self, path: String, tree: Vec<crate::fs_tree::FileNode>)
        requires
            old(self).wf(),
        ensures
            final(self).wf(),
            final(self).workspace == Some(path),
            final(self).tree == tree,
            final(self).open_files == old(self).open_files,
            final(self).active_tab == old(self).active_tab,
            final(self).find_replace == old(self).find_replace,
    {
        self.workspace = Some(path);
        self.tree = tree;
    }

    /// Open a document: a path that is already open is only activated (never
    /// opened twice); otherwise a new document is created from the given
    /// content (the file's text, or empty when reading failed) and activated.
    pub fn open_file(&mut self, path: String, content: Vec<char>)
        requires
            old(self).wf(),
        ensures
            final(self).wf(),
            final(self).workspace == old(self).workspace,
            final(self).tree == old(self).tree,
            final(self).find_replace == old(self).find_replace,
            (exists|i: int|
                0 <= i < old(self).open_files@.len() && old(self).open_files@[i].path@ == path@)
                ==> {
                &&& final(self).open_files == old(self).open_files
                &&& (final(self).active_tab as int) < old(self).open_files@.len()
                &&& old(self).open_files@[final(self).active_tab as int].path@ == path@
            },
            (forall|i: int|
                0 <= i < old(self).open_files@.len() ==> old(self).open_files@[i].path@ != path@)
                ==> {
                &&& final(self).open_files@.len() == old(self).open_files@.len() + 1
                &&& (forall|j: int|
                    0 <= j < old(self).open_files@.len() ==> final(self).open_files@[j] == old(self).open_files@[j])
                &&& final(self).active_tab as int == old(self).open_files@.len()
                &&& final(self).open_files@[old(self).open_files@.len() as int].path@ == path@
                &&& final(self).open_files@[old(self).open_files@.len() as int].content()
                    == content@
                &&& final(self).open_files@[old(self).open_files@.len() as int].saved()
                    == content@
                &&& final(self).open_files@[old(self).open_files@.len() as int].state.is_modified
                    == false
            },
    {
        let n = self.open_files.len();
        let mut i: usize = 0;
        while i < n
            invariant
                i <= n,
                old(self).wf(),
                *self == *old(self),
                n == self.open_files@.len(),
                forall|k: int| 0 <= k < i ==> self.open_files@[k].path@ != path@,
            decreases n - i,
        {
            if self.open_files[i].path == path {
                self.active_tab = i;
                return ;
            }
            i = i + 1;
        }
        let doc = TextDocument::new(path, content);
        self.open_files.push(doc);
        self.active_tab = self.open_files.len() - 1;
    }

    /// Close the document at `index`; an active index at or past the removed
    /// one (and not already the first) is decremented, so it never goes
    /// negative and stays in bounds.
    pub fn close_tab(&mut self, index: usize)
        requires
            old(self).wf(),
            (index as int) < old(self).open_files@.len(),
        ensures
            final(self).wf(),
            final(self).workspace == old(self).workspace,
            final(self).tree == old(self).tree,
            final(self).find_replace == old(self).find_replace,
            final(self).open_files@ == old(self).open_files@.remove(index as int),
            final(self).active_tab == if old(self).active_tab >= index && old(self).active_tab > 0 {
                (old(self).active_tab - 1) as usize
            } else {
                old(self).active_tab
            },
    {
        self.open_files.remove(index);
        if self.active_tab >= index && self.active_tab > 0 {
            self.active_tab = self.active_tab - 1;
        }
        proof {
            let new_files = self.open_files@;
            let old_files = old(self).open_files@;
            assert forall|i: int, j: int| 0 <= i < j < new_files.len() implies new_files[i].path@
                != new_files[j].path@ by {
                let oi = if i < index {
                    i
                } else {
                    i + 1
                };
                let oj = if j < index {
                    j
                } else {
                    j + 1
                };
                assert(new_files[i] == old_files[oi]);
                assert(new_files[j] == old_files[oj]);
            }
        }
    }

    /// A reference to the active document, if any is open.
    pub fn active_document(&self) -> (d: Option<&TextDocument>)
        requires
            self.wf(),
        ensures
            match d {
                Some(doc) => self.open_files@.len() > 0 && *doc
                    == self.open_files@[self.active_tab as int],
                None => self.open_files@.len() == 0,
            },
    {
        if self.active_tab < self.open_files.len() {
            Some(&self.open_files[self.active_tab])
        } else {
            None
        }
    }

    /// Recompute the match list against the active document (empty when no
    /// document is open, or when the query is empty); the active match is
    /// reset to the first.
    pub fn perform_search(&mut self)
        requires
            old(self).wf(),
        ensures
            final(self).wf(),
            final(self).workspace == old(self).workspace,
            final(self).tree == old(self).tree,
            final(self).open_files == old(self).open_files,
            final(self).active_tab == old(self).active_tab,
            final(self).find_replace.search_text == old(self).find_replace.search_text,
            final(self).find_replace.replace_text == old(self).find_replace.replace_text,
            final(self).find_replace.case_sensitive == old(self).find_replace.case_sensitive,
            final(self).find_replace.current_match == 0,
            final(self).find_replace.spans() == if old(self).open_files@.len() > 0 {
                match_list(
                    old(self).active_content(),
                    old(self).find_replace.search_text@,
                    old(self).find_replace.case_sensitive,
                    0,
                )
            } else {
                Seq::<(int, int)>::empty()
            },
    {
        if self.active_tab < self.open_files.len() {
            let content = self.open_files[self.active_tab].content_chars();
            self.find_replace.perform_search(&content);
        } else {
            self.find_replace.matches = Vec::new();
            self.find_replace.current_match = 0;
            proof {
                assert(self.find_replace.spans() =~= Seq::<(int, int)>::empty());
            }
        }
    }

    /// Advance the active match circularly; a no-op when there are no
    /// matches.
    pub fn find_next(&mut self)
        requires
            old(self).wf(),
        ensures
            final(self).wf(),
            final(self).workspace == old(self).workspace,
            final(self).tree == old(self).tree,
            final(self).open_files == old(self).open_files,
            final(self).active_tab == old(self).active_tab,
            final(self).find_replace.search_text == old(self).find_replace.search_text,
            final(self).find_replace.replace_text == old(self).find_replace.replace_text,
            final(self).find_replace.case_sensitive == old(self).find_replace.case_sensitive,
            final(self).find_replace.matches == old(self).find_replace.matches,
            old(self).find_replace.matches@.len() == 0 ==> final(self).find_replace.current_match
                == old(self).find_replace.current_match,
            old(self).find_replace.matches@.len() > 0 ==> final(self).find_replace.current_match as int == (old(self).find_replace.current_match + 1) % (
            old(self).find_replace.matches@.len() as int),
    {
        self.find_replace.find_next();
    }

    /// Retreat the active match circularly; a no-op when there are no
    /// matches.
    pub fn find_previous(&mut self)
        requires
            old(self).wf(),
        ensures
            final(self).wf(),
            final(self).workspace == old(self).workspace,
            final(self).tree == old(self).tree,
            final(self).open_files == old(self).open_files,
            final(self).active_tab == old(self).active_tab,
            final(self).find_replace.search_text == old(self).find_replace.search_text,
            final(self).find_replace.replace_text == old(self).find_replace.replace_text,
            final(self).find_replace.case_sensitive == old(self).find_replace.case_sensitive,
            final(self).find_replace.matches == old(self).find_replace.matches,
            old(self).find_replace.matches@.len() == 0 ==> final(self).find_replace.current_match
                == old(self).find_replace.current_match,
            old(self).find_replace.matches@.len() > 0 ==> final(self).find_replace.current_match as int == if old(self).find_replace.current_match == 0 {
                old(self).find_replace.matches@.len() - 1
            } else {
                old(self).find_replace.current_match - 1
            },
    {
        self.find_replace.find_previous();
    }

    /// Replace the active match span in the active document with the
    /// replacement text, then recompute the match list against the new
    /// content. A no-op when there are no matches, no document is open, or
    /// the recorded span no longer fits the content (stale spans are never
    /// applied).
    pub fn replace_current(&mut self)
        requires
            old(self).wf(),
        ensures
            final(self).wf(),
            final(self).workspace == old(self).workspace,
            final(self).tree == old(self).tree,
            final(self).active_tab == old(self).active_tab,
            final(self).find_replace.search_text == old(self).find_replace.search_text,
            final(self).find_replace.replace_text == old(self).find_replace.replace_text,
            final(self).find_replace.case_sensitive == old(self).find_replace.case_sensitive,
            old(self).find_replace.matches@.len() == 0 ==> *final(self) == *old(self),
            old(self).find_replace.matches@.len() > 0 && old(self).open_files@.len() == 0 ==> *final(self) == *old(self),
            old(self).find_replace.matches@.len() > 0 && old(self).open_files@.len() > 0 ==> ({
                let m = old(self).find_replace.matches@[old(self).find_replace.current_match as int];
                let content = old(self).active_content();
                if m.0 <= m.1 <= content.len() {
                    let new_content = content.subrange(0, m.0 as int) + old(self).find_replace.replace_text@ + content.subrange(
                        m.1 as int,
                        content.len() as int,
                    );
                    &&& final(self).open_files@.len() == old(self).open_files@.len()
                    &&& (forall|j: int|
                        0 <= j < old(self).open_files@.len() && j != old(self).active_tab as int
                            ==> final(self).open_files@[j] == old(self).open_files@[j])
                    &&& final(self).active_content() == new_content
                    &&& final(self).open_files@[old(self).active_tab as int].path == old(self).open_files@[old(self).active_tab as int].path
                    &&& final(self).open_files@[old(self).active_tab as int].saved() == old(self).open_files@[old(self).active_tab as int].saved()
                    &&& final(self).open_files@[old(self).active_tab as int].state.is_modified == (
                    new_content != old(self).open_files@[old(self).active_tab as int].saved())
                    &&& final(self).find_replace.current_match == 0
                    &&& final(self).find_replace.spans() == match_list(
                        new_content,
                        old(self).find_replace.search_text@,
                        old(self).find_replace.case_sensitive,
                        0,
                    )
                } else {
                    *final(self) == *old(self)
                }
            }),
    {
        if self.find_replace.matches.len() == 0 {
            return ;
        }
        if self.active_tab >= self.open_files.len() {
            return ;
        }
        let m = self.find_replace.matches[self.find_replace.current_match];
        let content = self.open_files[self.active_tab].content_chars();
        if m.0 <= m.1 && m.1 <= content.len() {
            let repl = str_to_chars(self.find_replace.replace_text.as_str());
            let new_content = splice_chars(&content, m.0, m.1, &repl);
            self.open_files[self.active_tab].set_content(new_content);
            let content2 = self.open_files[self.active_tab].content_chars();
            self.find_replace.perform_search(&content2);
            proof {
                assert forall|i: int, j: int|
                    0 <= i < j < self.open_files@.len() implies self.open_files@[i].path@
                    != self.open_files@[j].path@ by {
                    assert(self.open_files@[i].path == old(self).open_files@[i].path);
                    assert(self.open_files@[j].path == old(self).open_files@[j].path);
                }
            }
        }
    }

    /// Replace every occurrence of the query in the active document, then
    /// recompute the match list against the new content. A no-op when there
    /// are no matches at call time or no document is open.
    pub fn replace_all(&mut self)
        requires
            old(self).wf(),
        ensures
            final(self).wf(),
            final(self).workspace == old(self).workspace,
            final(self).tree == old(self).tree,
            final(self).active_tab == old(self).active_tab,
            final(self).find_replace.search_text == old(self).find_replace.search_text,
            final(self).find_replace.replace_text == old(self).find_replace.replace_text,
            final(self).find_replace.case_sensitive == old(self).find_replace.case_sensitive,
            old(self).find_replace.matches@.len() == 0 ==> *final(self) == *old(self),
            old(self).find_replace.matches@.len() > 0 && old(self).open_files@.len() == 0 ==> *final(self) == *old(self),
            old(self).find_replace.matches@.len() > 0 && old(self).open_files@.len() > 0 ==> ({
                let new_content = replaced_from(
                    old(self).active_content(),
                    old(self).find_replace.search_text@,
                    old(self).find_replace.replace_text@,
                    old(self).find_replace.case_sensitive,
                    0,
                );
                &&& final(self).open_files@.len() == old(self).open_files@.len()
                &&& (forall|j: int|
                    0 <= j < old(self).open_files@.len() && j != old(self).active_tab as int
                        ==> final(self).open_files@[j] == old(self).open_files@[j])
                &&& final(self).active_content() == new_content
                &&& final(self).open_files@[old(self).active_tab as int].path == old(self).open_files@[old(self).active_tab as int].path
                &&& final(self).open_files@[old(self).active_tab as int].saved() == old(self).open_files@[old(self).active_tab as int].saved()
                &&& final(self).open_files@[old(self).active_tab as int].state.is_modified == (
                new_content != old(self).open_files@[old(self).active_tab as int].saved())
                &&& final(self).find_replace.current_match == 0
                &&& final(self).find_replace.spans() == match_list(
                    new_content,
                    old(self).find_replace.search_text@,
                    old(self).find_replace.case_sensitive,
                    0,
                )
            }),
    {
        if self.find_replace.matches.len() == 0 {
            return ;
        }
        if self.active_tab >= self.open_files.len() {
            return ;
        }
        let content = self.open_files[self.active_tab].content_chars();
        let q = str_to_chars(self.find_replace.search_text.as_str());
        let r = str_to_chars(self.find_replace.replace_text.as_str());
        let new_content = replace_all_chars(&content, &q, &r, self.find_replace.case_sensitive);
        self.open_files[self.active_tab].set_content(new_content);
        let content2 = self.open_files[self.active_tab].content_chars();
        self.find_replace.perform_search(&content2);
        proof {
            assert forall|i: int, j: int|
                0 <= i < j < self.open_files@.len() implies self.open_files@[i].path@
                != self.open_files@[j].path@ by {
                assert(self.open_files@[i].path == old(self).open_files@[i].path);
                assert(self.open_files@[j].path == old(self).open_files@[j].path);
            }
        }
    }

    /// Take a freshly edited text into the active document (auto-close,
    /// modified flag and cursor re-derived); a no-op when no document is
    /// open.
    pub fn apply_edit(&mut self, new_text: Vec<char>, cursor_offset: usize)
        requires
            old(self).wf(),
        ensures
            final(self).wf(),
            final(self).workspace == old(self).workspace,
            final(self).tree == old(self).tree,
            final(self).active_tab == old(self).active_tab,
            final(self).find_replace == old(self).find_replace,
            old(self).open_files@.len() == 0 ==> final(self).open_files == old(self).open_files,
            old(self).open_files@.len() > 0 ==> ({
                &&& final(self).open_files@.len() == old(self).open_files@.len()
                &&& (forall|j: int|
                    0 <= j < old(self).open_files@.len() && j != old(self).active_tab as int
                        ==> final(self).open_files@[j] == old(self).open_files@[j])
                &&& final(self).active_content() == crate::autoclose::auto_close_spec(
                    new_text@,
                    old(self).active_content().len() as int,
                    cursor_offset as int,
                )
                &&& final(self).open_files@[old(self).active_tab as int].path == old(self).open_files@[old(self).active_tab as int].path
                &&& final(self).open_files@[old(self).active_tab as int].saved() == old(self).open_files@[old(self).active_tab as int].saved()
                &&& final(self).open_files@[old(self).active_tab as int].state.is_modified == (
                final(self).active_content() != old(self).open_files@[old(self).active_tab as int].saved())
            }),
    {
        if self.active_tab < self.open_files.len() {
            self.open_files[self.active_tab].apply_edit(new_text, cursor_offset);
            proof {
                assert forall|i: int, j: int|
                    0 <= i < j < self.open_files@.len() implies self.open_files@[i].path@
                    != self.open_files@[j].path@ by {
                    assert(self.open_files@[i].path == old(self).open_files@[i].path);
                    assert(self.open_files@[j].path == old(self).open_files@[j].path);
                }
            }
        }
    }

    /// Record that the active document's content was successfully written to
    /// its path: its snapshot becomes its content. A no-op when no document
    /// is open. (On a failed write the caller must not call this: the
    /// document is left untouched so the user can retry.)
    pub fn mark_active_saved(&mut self)
        requires
            old(self).wf(),
        ensures
            final(self).wf(),
            final(self).workspace == old(self).workspace,
            final(self).tree == old(self).tree,
            final(self).active_tab == old(self).active_tab,
            final(self).find_replace == old(self).find_replace,
            old(self).open_files@.len() == 0 ==> final(self).open_files == old(self).open_files,
            old(self).open_files@.len() > 0 ==> ({
                &&& final(self).open_files@.len() == old(self).open_files@.len()
                &&& (forall|j: int|
                    0 <= j < old(self).open_files@.len() && j != old(self).active_tab as int
                        ==> final(self).open_files@[j] == old(self).open_files@[j])
                &&& final(self).active_content() == old(self).active_content()
                &&& final(self).open_files@[old(self).active_tab as int].path == old(self).open_files@[old(self).active_tab as int].path
                &&& final(self).open_files@[old(self).active_tab as int].saved() == old(self).active_content()
                &&& final(self).open_files@[old(self).active_tab as int].state.is_modified == false
            }),
    {
        if self.active_tab < self.open_files.len() {
            self.open_files[self.active_tab].mark_saved();
            proof {
                assert forall|i: int, j: int|
                    0 <= i < j < self.open_files@.len() implies self.open_files@[i].path@
                    != self.open_files@[j].path@ by {
                    assert(self.open_files@[i].path == old(self).open_files@[i].path);
                    assert(self.open_files@[j].path == old(self).open_files@[j].path);
                }
            }
        }
    }
}

} // verus!
