use editor_core::document::TextDocument;
use editor_core::fs_tree::FileNode;
use editor_core::session::EditorSession;

fn chars(s: &str) -> Vec<char> {
    s.chars().collect()
}

#[test]
fn opening_a_path_twice_only_activates_it() {
    let mut s = EditorSession::new();
    s.open_file("a.rs".to_string(), chars("A"));
    s.open_file("b.rs".to_string(), chars("B"));
    assert_eq!(s.open_files.len(), 2);
    assert_eq!(s.active_tab, 1);
    s.open_file("a.rs".to_string(), chars("ignored"));
    assert_eq!(s.open_files.len(), 2);
    assert_eq!(s.active_tab, 0);
    assert_eq!(s.open_files[0].content_string(), "A");
}

#[test]
fn closing_a_tab_keeps_the_active_document_in_view() {
    let mut s = EditorSession::new();
    s.open_file("a.rs".to_string(), chars("A"));
    s.open_file("b.rs".to_string(), chars("B"));
    s.open_file("c.rs".to_string(), chars("C"));
    s.active_tab = 1;
    s.close_tab(0);
    // The active index was past the removed one, so it is decremented and
    // still points at the same document.
    assert_eq!(s.active_tab, 0);
    assert_eq!(s.open_files[s.active_tab].content_string(), "B");
}

#[test]
fn closing_the_last_tab_leaves_an_empty_session() {
    let mut s = EditorSession::new();
    s.open_file("a.rs".to_string(), chars("A"));
    s.close_tab(0);
    assert_eq!(s.open_files.len(), 0);
    assert_eq!(s.active_tab, 0);
    assert!(s.active_document().is_none());
}

#[test]
fn opening_a_folder_replaces_the_workspace_tree() {
    let mut s = EditorSession::new();
    assert!(s.workspace.is_none());
    let root = FileNode::new("proj".to_string(), true, vec![]);
    s.open_folder("proj".to_string(), vec![root]);
    assert_eq!(s.workspace.as_deref(), Some("proj"));
    assert_eq!(s.tree.len(), 1);
    assert_eq!(s.tree[0].name(), "proj");
}

#[test]
fn session_search_and_replace_all() {
    let mut s = EditorSession::new();
    s.open_file("a.txt".to_string(), chars("Foo foo FOO"));
    s.find_replace.search_text = "foo".to_string();
    s.find_replace.replace_text = "x".to_string();
    s.find_replace.case_sensitive = false;
    s.perform_search();
    assert_eq!(s.find_replace.matches, vec![(0, 3), (4, 7), (8, 11)]);
    s.replace_all();
    assert_eq!(s.open_files[0].content_string(), "x x x");
    // Matches were recomputed against the new content: the query is gone.
    assert!(s.find_replace.matches.is_empty());
}

#[test]
fn session_replace_current_replaces_only_the_active_match() {
    let mut s = EditorSession::new();
    s.open_file("a.txt".to_string(), chars("one two one"));
    s.find_replace.search_text = "one".to_string();
    s.find_replace.replace_text = "1".to_string();
    s.find_replace.case_sensitive = true;
    s.perform_search();
    assert_eq!(s.find_replace.matches.len(), 2);
    s.find_next();
    assert_eq!(s.find_replace.current_match, 1);
    s.replace_current();
    assert_eq!(s.open_files[0].content_string(), "one two 1");
    assert_eq!(s.find_replace.matches, vec![(0, 3)]);
    assert_eq!(s.find_replace.current_match, 0);
}

#[test]
fn replace_operations_without_matches_are_no_ops() {
    let mut s = EditorSession::new();
    s.open_file("a.txt".to_string(), chars("abc"));
    s.find_replace.replace_text = "x".to_string();
    s.replace_current();
    s.replace_all();
    assert_eq!(s.open_files[0].content_string(), "abc");
}

#[test]
fn save_then_load_returns_identical_content() {
    let mut doc = TextDocument::new("notes.txt".to_string(), chars("héllo\nwörld"));
    doc.set_content(chars("héllo\nwörld!"));
    assert!(doc.is_modified());
    // What a save would write to disk:
    let payload = doc.content_string();
    doc.mark_saved();
    assert!(!doc.is_modified());
    assert!(!doc.state.is_modified);
    // A later load hands the same text back; the reloaded document is
    // identical to what was saved.
    let reloaded = TextDocument::new("notes.txt".to_string(), payload.chars().collect());
    assert_eq!(reloaded.content_string(), doc.content_string());
    assert!(!reloaded.is_modified());
}

#[test]
fn modified_flag_follows_snapshot_comparison() {
    let mut doc = TextDocument::new("a.txt".to_string(), chars("x"));
    assert!(!doc.is_modified());
    doc.set_content(chars("y"));
    assert!(doc.is_modified());
    // Editing back to the snapshot clears the derived flag: it is a
    // comparison, not a sticky bit.
    doc.set_content(chars("x"));
    assert!(!doc.is_modified());
}

#[test]
fn marking_saved_while_active_updates_only_the_active_document() {
    let mut s = EditorSession::new();
    s.open_file("a.txt".to_string(), chars("A"));
    s.open_file("b.txt".to_string(), chars("B"));
    s.apply_edit(chars("B2"), 2);
    assert!(s.open_files[1].is_modified());
    s.mark_active_saved();
    assert!(!s.open_files[1].is_modified());
    assert!(!s.open_files[0].is_modified());
}

#[test]
fn document_counts_lines_and_chars() {
    let doc = TextDocument::new("a.txt".to_string(), chars("ab\ncd"));
    assert_eq!(doc.len_chars(), 5);
    assert_eq!(doc.len_lines(), 2);
    let doc = TextDocument::new("a.txt".to_string(), chars(""));
    assert_eq!(doc.len_chars(), 0);
    assert_eq!(doc.len_lines(), 1);
    let doc = TextDocument::new("a.txt".to_string(), chars("a\n"));
    assert_eq!(doc.len_lines(), 2);
}
