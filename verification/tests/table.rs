//! Tests of the table renderer.

use dnsi::table_writer::TableWriter;

fn row2(a: &str, b: &str) -> [String; 2] {
    [a.to_string(), b.to_string()]
}

fn writer2() -> TableWriter<2> {
    TableWriter {
        indent: "  ".to_string(),
        spacing: "  ".to_string(),
        header: None,
        rows: vec![row2("a", "bbb"), row2("cc", "d")],
        enabled_columns: [true, true],
        right_aligned: [false, false],
    }
}

#[test]
fn columns_align_to_the_widest_cell() {
    let out = writer2().write();
    assert_eq!(out, "  a   bbb\n  cc  d\n");
}

#[test]
fn a_header_is_underlined_italic_and_padded() {
    let mut w = writer2();
    w.header = Some(["x".to_string(), "yy".to_string()]);
    let out = w.write();
    assert_eq!(
        out,
        "  \u{1b}[4m\u{1b}[3mx   yy \u{1b}[m\n  a   bbb\n  cc  d\n"
    );
}

#[test]
fn right_aligned_columns_pad_before_the_text() {
    let mut w = writer2();
    w.right_aligned = [true, true];
    let out = w.write();
    assert_eq!(out, "   a  bbb\n  cc    d\n");
}

#[test]
fn disabled_columns_are_left_out() {
    let mut w = writer2();
    w.enabled_columns = [false, true];
    let out = w.write();
    assert_eq!(out, "  bbb\n  d\n");
}

#[test]
fn no_enabled_columns_render_nothing() {
    let mut w = writer2();
    w.enabled_columns = [false, false];
    w.header = Some(["x".to_string(), "y".to_string()]);
    assert_eq!(w.write(), "");
}

#[test]
fn an_empty_table_still_renders_its_header() {
    let w: TableWriter<1> = TableWriter {
        indent: "".to_string(),
        spacing: "  ".to_string(),
        header: Some(["head".to_string()]),
        rows: Vec::new(),
        enabled_columns: [true],
        right_aligned: [false],
    };
    assert_eq!(w.write(), "\u{1b}[4m\u{1b}[3mhead\u{1b}[m\n");
}

#[test]
fn the_default_writer_renders_nothing() {
    let w: TableWriter<3> = TableWriter::default();
    assert_eq!(w.indent, "");
    assert_eq!(w.spacing, "  ");
    assert!(w.header.is_none());
    assert!(w.rows.is_empty());
    assert_eq!(w.enabled_columns, [true; 3]);
    assert_eq!(w.right_aligned, [false; 3]);
    assert_eq!(w.write(), "");
}
