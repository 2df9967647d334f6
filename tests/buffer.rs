use std::ops::Bound::{Excluded, Included, Unbounded};

use six::{Buf, Buffer, Cursor, Metric, Row};

#[test]
fn delete_then_restore() {
    let mut buf = Buf::from("hello world");
    let start = Cursor::new(2);
    let end = Cursor::new(7);
    buf.delete((Included(start), Excluded(end)));
    assert_eq!(buf.to_string(), "heorld");
    buf.edit((Included(start), Excluded(start)), "llo w");
    assert_eq!(buf.to_string(), "hello world");
}

#[test]
fn edit_with_every_kind_of_bound() {
    let mut buf = Buf::from("abcdef");
    buf.edit((Excluded(Cursor::new(0)), Included(Cursor::new(2))), "XY");
    assert_eq!(buf.to_string(), "aXYdef");
    buf.edit((Unbounded, Excluded(Cursor::new(1))), "");
    assert_eq!(buf.to_string(), "XYdef");
    buf.edit((Included(Cursor::new(3)), Unbounded), "!");
    assert_eq!(buf.to_string(), "XYd!");
    buf.delete((Unbounded, Unbounded));
    assert!(buf.is_empty());
}

#[test]
fn insert_keeps_characters_whole() {
    let mut buf = Buf::from("\u{e9}t\u{e9}");
    buf.insert(Cursor::new(1), '\u{1f600}');
    assert_eq!(buf.to_string(), "\u{e9}\u{1f600}t\u{e9}");
    assert_eq!(buf.len(), 4);
    assert_eq!(buf.get(Cursor::new(1)), Some('\u{1f600}'));
    assert_eq!(buf.get(Cursor::new(4)), None);
}

#[test]
fn lines_split_on_breaks() {
    let buf = Buf::from("ab\n\ncde");
    assert_eq!(buf.rows(), 3);
    let lines: Vec<String> = buf.lines().iter().map(|r| r.to_string()).collect();
    assert_eq!(lines, vec!["ab", "", "cde"]);
    assert_eq!(buf.cols_at(0), 2);
    assert_eq!(buf.cols_at(1), 0);
    assert_eq!(buf.cols_at(2), 3);
    assert!(buf.line(3).is_none());
    assert_eq!(buf.line(2).unwrap().get(1), Some('d'));
}

#[test]
fn empty_text_has_one_empty_line() {
    let buf = Buf::new();
    assert_eq!(buf.rows(), 1);
    assert_eq!(buf.lines().len(), 1);
    assert_eq!(buf.cols_at(0), 0);
    assert_eq!(buf.origin(), Cursor::origin());
}

#[test]
fn row_insert_pads_with_spaces() {
    let buf = Buf::from("ab");
    let mut row: Row = buf.line(0).unwrap();
    row.insert(4, 'x');
    assert_eq!(row.to_string(), "ab  x");
    assert_eq!(row.len(), 5);
    row.pad(7, '-');
    assert_eq!(row.to_string(), "ab  x--");
    row.pad(2, '-');
    assert_eq!(row.len(), 7);
    assert_eq!(row.get(7), None);
}

#[test]
fn buffer_moves_its_cursor() {
    let mut buffer = Buffer::from("ab\ncd");
    assert_eq!(buffer.forward(Metric::Line), Some(Cursor { offset: 3, column: Some(0) }));
    assert_eq!(buffer.cursor().offset(), 3);
    assert_eq!(buffer.forward(Metric::Line), None);
    assert_eq!(buffer.cursor().offset(), 3);
    assert_eq!(buffer.backward(Metric::Codepoint), Some(Cursor::new(2)));
    let old = buffer.set_cursor(Cursor::new(5));
    assert_eq!(old, Cursor::new(2));
    buffer.append('e');
    assert_eq!(buffer.to_string(), "ab\ncde");
    assert_eq!(buffer.cursor(), Cursor::new(6));
    assert_eq!(buffer.get(Cursor::new(5)), Some('e'));
    assert_eq!(buffer.line(1).unwrap().to_string(), "cde");
}

#[test]
fn buffer_edit_keeps_cursor_in_text() {
    let mut buffer = Buffer::from("abcdef");
    buffer.set_cursor(Cursor::new(6));
    buffer.delete((Included(Cursor::new(2)), Unbounded));
    assert_eq!(buffer.content().to_string(), "ab");
    assert_eq!(buffer.cursor(), Cursor::new(2));
    buffer.edit("xyz", (Included(Cursor::new(0)), Excluded(Cursor::new(0))));
    assert_eq!(buffer.to_string(), "xyzab");
    buffer.insert('!', Cursor::new(5));
    assert_eq!(buffer.to_string(), "xyzab!");
    assert_eq!(buffer.cursor(), Cursor::new(2));
}
