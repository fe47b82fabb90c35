use editor_core::autoclose::auto_close;
use editor_core::autoclose::closing_delimiter;
use editor_core::document::TextDocument;

fn chars(s: &str) -> Vec<char> {
    s.chars().collect()
}

fn text(v: &[char]) -> String {
    v.iter().collect()
}

#[test]
fn typing_an_opener_inserts_its_closer_after_the_cursor() {
    let out = auto_close(&chars("("), 0, 1);
    assert_eq!(text(&out), "()");
    let out = auto_close(&chars("a{"), 1, 2);
    assert_eq!(text(&out), "a{}");
    let out = auto_close(&chars("a[b"), 2, 2);
    assert_eq!(text(&out), "a[]b");
}

#[test]
fn quotes_and_backticks_auto_close_too() {
    assert_eq!(text(&auto_close(&chars("\""), 0, 1)), "\"\"");
    assert_eq!(text(&auto_close(&chars("'"), 0, 1)), "''");
    assert_eq!(text(&auto_close(&chars("`"), 0, 1)), "``");
}

#[test]
fn pasting_two_scalars_never_triggers() {
    // Content grew by two scalars: no insertion, even though an opener was
    // among them.
    let out = auto_close(&chars("()"), 0, 2);
    assert_eq!(text(&out), "()");
}

#[test]
fn deletion_never_triggers() {
    let out = auto_close(&chars("("), 2, 1);
    assert_eq!(text(&out), "(");
}

#[test]
fn non_opener_scalars_are_a_no_op() {
    let out = auto_close(&chars("a"), 0, 1);
    assert_eq!(text(&out), "a");
    let out = auto_close(&chars(")"), 0, 1);
    assert_eq!(text(&out), ")");
}

#[test]
fn closing_delimiter_table() {
    assert_eq!(closing_delimiter('('), Some(')'));
    assert_eq!(closing_delimiter('['), Some(']'));
    assert_eq!(closing_delimiter('{'), Some('}'));
    assert_eq!(closing_delimiter('"'), Some('"'));
    assert_eq!(closing_delimiter('\''), Some('\''));
    assert_eq!(closing_delimiter('`'), Some('`'));
    assert_eq!(closing_delimiter('a'), None);
    assert_eq!(closing_delimiter(')'), None);
}

#[test]
fn document_edit_applies_auto_close_and_keeps_cursor_between() {
    let mut doc = TextDocument::new("f.rs".to_string(), chars("x"));
    doc.apply_edit(chars("x("), 2);
    assert_eq!(doc.content_string(), "x()");
    // The cursor stays between the opener and the inserted closer.
    assert_eq!(doc.state.cursor.offset, 2);
    assert!(doc.state.is_modified);
}

#[test]
fn document_paste_does_not_auto_close() {
    let mut doc = TextDocument::new("f.rs".to_string(), chars(""));
    doc.apply_edit(chars("()"), 2);
    assert_eq!(doc.content_string(), "()");
}
