use lsp_project_compiler::line_numbers::{LineColumn, LineNumbers};

fn lc(line: usize, column: usize) -> LineColumn {
    LineColumn { line, column }
}

#[test]
fn ascii_offsets() {
    let index = LineNumbers::new("ab\ncd\n");
    assert_eq!(index.line_and_column_number(0), lc(0, 0));
    assert_eq!(index.line_and_column_number(1), lc(0, 1));
    assert_eq!(index.line_and_column_number(2), lc(0, 2));
    assert_eq!(index.line_and_column_number(3), lc(1, 0));
    assert_eq!(index.line_and_column_number(5), lc(1, 2));
    assert_eq!(index.line_and_column_number(6), lc(2, 0));
}

#[test]
fn multibyte_columns_count_characters() {
    // "é" takes two bytes, "€" three.
    let index = LineNumbers::new("é€x");
    assert_eq!(index.length(), 6);
    assert_eq!(index.line_and_column_number(2), lc(0, 1));
    assert_eq!(index.line_and_column_number(5), lc(0, 2));
    assert_eq!(index.line_and_column_number(6), lc(0, 3));
    assert_eq!(index.byte_index(0, 1), 2);
    assert_eq!(index.byte_index(0, 2), 5);
    assert_eq!(index.byte_index(0, 3), 6);
}

#[test]
fn byte_index_of_lines() {
    let index = LineNumbers::new("ab\ncd\n");
    assert_eq!(index.byte_index(0, 0), 0);
    assert_eq!(index.byte_index(1, 0), 3);
    assert_eq!(index.byte_index(1, 1), 4);
    assert_eq!(index.byte_index(2, 0), 6);
    // A column past the end of its line stops at the newline.
    assert_eq!(index.byte_index(0, 9), 2);
    // A line past the last gives the end of the text.
    assert_eq!(index.byte_index(7, 0), 6);
}

#[test]
fn empty_text() {
    let index = LineNumbers::new("");
    assert_eq!(index.length(), 0);
    assert_eq!(index.line_and_column_number(0), lc(0, 0));
    assert_eq!(index.byte_index(0, 0), 0);
    assert_eq!(index.byte_index(0, 4), 0);
}

#[test]
fn round_trip_of_every_offset() {
    let text = "let x = \"ü\"\n\nfn é() {\n  1 }\n";
    let index = LineNumbers::new(text);
    for o in 0..=text.len() {
        let p = index.line_and_column_number(o);
        let back = index.byte_index(p.line, p.column);
        assert!(back <= o);
        assert_eq!(index.line_and_column_number(back), p);
        if text.is_char_boundary(o) {
            assert_eq!(back, o);
        }
    }
}

#[test]
fn offset_inside_a_character_maps_to_its_start() {
    let index = LineNumbers::new("aé");
    assert_eq!(index.line_and_column_number(2), lc(0, 1));
    assert_eq!(index.byte_index(0, 1), 1);
}
