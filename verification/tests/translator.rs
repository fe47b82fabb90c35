use editor_core::cursor::CursorPosition;
use editor_core::cursor::offset_to_line_col;

fn rope_of(s: &str) -> ropey::Rope {
    ropey::Rope::from_str(s)
}

#[test]
fn empty_document_is_line_one_column_one() {
    let rope = rope_of("");
    for off in [0usize, 1, 5, 100] {
        let c = CursorPosition::from_char_offset(&rope, off);
        assert_eq!(c.line, 1);
        assert_eq!(c.column, 1);
        assert_eq!(c.offset, 0);
    }
}

#[test]
fn offset_three_in_two_line_document() {
    let rope = rope_of("ab\ncd");
    let c = CursorPosition::from_char_offset(&rope, 3);
    assert_eq!(c.line, 2);
    assert_eq!(c.column, 1);
    assert_eq!(c.offset, 3);
}

#[test]
fn out_of_bounds_offset_is_clamped_to_last_scalar() {
    let rope = rope_of("ab\ncd");
    let c = CursorPosition::from_char_offset(&rope, 10);
    assert_eq!(c.offset, 4);
    assert_eq!(c.line, 2);
    assert_eq!(c.column, 2);
}

#[test]
fn first_line_positions() {
    let rope = rope_of("ab\ncd");
    let c0 = CursorPosition::from_char_offset(&rope, 0);
    assert_eq!((c0.line, c0.column, c0.offset), (1, 1, 0));
    let c1 = CursorPosition::from_char_offset(&rope, 1);
    assert_eq!((c1.line, c1.column, c1.offset), (1, 2, 1));
}

#[test]
fn multibyte_scalars_count_as_single_columns() {
    let rope = rope_of("é✓\nx");
    let c = CursorPosition::from_char_offset(&rope, 1);
    assert_eq!((c.line, c.column, c.offset), (1, 2, 1));
    let c = CursorPosition::from_char_offset(&rope, 3);
    assert_eq!((c.line, c.column, c.offset), (2, 1, 3));
}

#[test]
fn zero_indexed_line_col_for_rendering() {
    assert_eq!(offset_to_line_col("ab\ncd", 0), (0, 0));
    assert_eq!(offset_to_line_col("ab\ncd", 3), (1, 0));
    assert_eq!(offset_to_line_col("ab\ncd", 4), (1, 1));
    assert_eq!(offset_to_line_col("ab\ncd", 10), (1, 2));
    assert_eq!(offset_to_line_col("", 3), (0, 0));
}

#[test]
fn cursor_display_format() {
    let c = CursorPosition { line: 12, column: 34, offset: 0 };
    assert_eq!(c.display(), "Ln 12, Col 34");
    let c = CursorPosition { line: 1, column: 1, offset: 0 };
    assert_eq!(c.display(), "Ln 1, Col 1");
    let c = CursorPosition { line: 105, column: 9, offset: 0 };
    assert_eq!(c.display(), "Ln 105, Col 9");
}
