use editor_core::find_replace::replace_all_chars;
use editor_core::find_replace::search_matches;
use editor_core::find_replace::FindReplaceState;

fn chars(s: &str) -> Vec<char> {
    s.chars().collect()
}

fn text(v: &[char]) -> String {
    v.iter().collect()
}

#[test]
fn case_sensitive_search_finds_exact_occurrences() {
    let ms = search_matches(&chars("Foo foo FOO"), &chars("foo"), true);
    assert_eq!(ms, vec![(4, 7)]);
}

#[test]
fn case_insensitive_search_folds_text_and_query() {
    let ms = search_matches(&chars("Foo foo FOO"), &chars("foo"), false);
    assert_eq!(ms, vec![(0, 3), (4, 7), (8, 11)]);
    let ms = search_matches(&chars("abc"), &chars("ABC"), false);
    assert_eq!(ms, vec![(0, 3)]);
}

#[test]
fn empty_query_yields_no_matches() {
    let ms = search_matches(&chars("abc"), &chars(""), true);
    assert!(ms.is_empty());
}

#[test]
fn matches_do_not_overlap() {
    // The scan resumes at each match's end.
    let ms = search_matches(&chars("aaa"), &chars("aa"), true);
    assert_eq!(ms, vec![(0, 2)]);
    let ms = search_matches(&chars("aaaa"), &chars("aa"), true);
    assert_eq!(ms, vec![(0, 2), (2, 4)]);
}

#[test]
fn spans_are_scalar_offsets_not_bytes() {
    // 'é' is one scalar but two bytes; spans must count scalars.
    let ms = search_matches(&chars("éé abc"), &chars("abc"), true);
    assert_eq!(ms, vec![(3, 6)]);
}

#[test]
fn search_is_idempotent() {
    let t = chars("one two one two");
    let q = chars("one");
    let first = search_matches(&t, &q, false);
    let second = search_matches(&t, &q, false);
    assert_eq!(first, second);
    assert_eq!(first, vec![(0, 3), (8, 11)]);
}

#[test]
fn replace_all_with_shorter_replacement_tracks_drift() {
    let out = replace_all_chars(&chars("Foo foo FOO"), &chars("foo"), &chars("x"), false);
    assert_eq!(text(&out), "x x x");
}

#[test]
fn replace_all_with_longer_replacement_tracks_drift() {
    let out = replace_all_chars(&chars("Foo foo FOO"), &chars("foo"), &chars("longer"), false);
    assert_eq!(text(&out), "longer longer longer");
}

#[test]
fn replace_all_adjacent_occurrences() {
    let out = replace_all_chars(&chars("abab"), &chars("ab"), &chars("z"), true);
    assert_eq!(text(&out), "zz");
}

#[test]
fn replace_all_case_sensitive_leaves_other_cases() {
    let out = replace_all_chars(&chars("Foo foo FOO"), &chars("foo"), &chars("x"), true);
    assert_eq!(text(&out), "Foo x FOO");
}

#[test]
fn replace_all_with_multibyte_replacement() {
    let out = replace_all_chars(&chars("a b a"), &chars("a"), &chars("é"), true);
    assert_eq!(text(&out), "é b é");
}

#[test]
fn next_wraps_from_last_match_to_first() {
    let mut fr = FindReplaceState::default();
    fr.matches = vec![(0, 1), (2, 3), (4, 5)];
    fr.current_match = 2;
    fr.find_next();
    assert_eq!(fr.current_match, 0);
    fr.find_next();
    assert_eq!(fr.current_match, 1);
}

#[test]
fn previous_wraps_from_first_match_to_last() {
    let mut fr = FindReplaceState::default();
    fr.matches = vec![(0, 1), (2, 3), (4, 5)];
    fr.current_match = 0;
    fr.find_previous();
    assert_eq!(fr.current_match, 2);
    fr.find_previous();
    assert_eq!(fr.current_match, 1);
}

#[test]
fn navigation_is_a_no_op_without_matches() {
    let mut fr = FindReplaceState::default();
    fr.find_next();
    assert_eq!(fr.current_match, 0);
    fr.find_previous();
    assert_eq!(fr.current_match, 0);
}

#[test]
fn perform_search_resets_the_active_match() {
    let mut fr = FindReplaceState::default();
    fr.search_text = "a".to_string();
    fr.current_match = 7;
    fr.perform_search(&chars("a b a"));
    assert_eq!(fr.current_match, 0);
    assert_eq!(fr.matches, vec![(0, 1), (4, 5)]);
}

#[test]
fn perform_search_with_empty_query_clears_matches() {
    let mut fr = FindReplaceState::default();
    fr.matches = vec![(0, 1)];
    fr.current_match = 0;
    fr.perform_search(&chars("aaa"));
    assert!(fr.matches.is_empty());
    assert_eq!(fr.current_match, 0);
}
