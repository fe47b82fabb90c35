use editor_core::bracket::find_matching_bracket;

#[test]
fn outer_pair_from_opening_bracket() {
    assert_eq!(find_matching_bracket("(a(b)c)", 0), Some((0, 6)));
}

#[test]
fn inner_pair_from_between() {
    // Cursor at offset 3 sits on 'b'; the scalar before it is the inner
    // opener, which pairs with the closer at offset 4.
    assert_eq!(find_matching_bracket("(a(b)c)", 3), Some((2, 4)));
}

#[test]
fn closer_scans_backward() {
    assert_eq!(find_matching_bracket("(a(b)c)", 6), Some((0, 6)));
    assert_eq!(find_matching_bracket("(a(b)c)", 4), Some((2, 4)));
}

#[test]
fn unbalanced_text_has_no_match() {
    for off in 0..3 {
        assert_eq!(find_matching_bracket("(a", off), None);
    }
}

#[test]
fn cursor_past_end_has_no_match() {
    assert_eq!(find_matching_bracket("()", 2), None);
    assert_eq!(find_matching_bracket("", 0), None);
}

#[test]
fn non_bracket_positions_have_no_match() {
    assert_eq!(find_matching_bracket("ab(c)d", 1), None);
}

#[test]
fn square_curly_and_angle_pairs() {
    assert_eq!(find_matching_bracket("[x]", 0), Some((0, 2)));
    assert_eq!(find_matching_bracket("{y}", 0), Some((0, 2)));
    assert_eq!(find_matching_bracket("<z>", 0), Some((0, 2)));
}

#[test]
fn nesting_depth_is_respected() {
    // The first closer at matching depth wins, not the first closer at all.
    assert_eq!(find_matching_bracket("(())", 0), Some((0, 3)));
    assert_eq!(find_matching_bracket("(())", 1), Some((1, 2)));
}
