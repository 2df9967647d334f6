use six::{Buf, Cursor, Metric};

fn walk_all(text: &Buf, metric: Metric) -> Vec<Cursor> {
    let mut it = Cursor::origin().iter(text, metric);
    let mut out = Vec::new();
    while let Some(c) = it.next() {
        out.push(c);
    }
    out
}

#[test]
fn test_iter() {
    // A text without words has no word tails.
    let text = Buf::from("");
    let codepoints = walk_all(&text, Metric::Tail);
    assert_eq!(codepoints, vec![]);
}

#[test]
fn tails_of_words() {
    let text = Buf::from("foo bar");
    let tails: Vec<usize> = walk_all(&text, Metric::Tail).iter().map(|c| c.offset()).collect();
    assert_eq!(tails, vec![2, 6]);
}

#[test]
fn heads_of_words() {
    let text = Buf::from("hello world");
    assert_eq!(Cursor::new(0).forward(&text, Metric::Head), Some(Cursor::new(6)));
    assert_eq!(Cursor::new(6).forward(&text, Metric::Head), None);
    assert_eq!(Cursor::new(11).backward(&text, Metric::Head), Some(Cursor::new(6)));
    assert_eq!(Cursor::new(6).backward(&text, Metric::Head), Some(Cursor::new(0)));
}

#[test]
fn heads_after_tabs_and_line_breaks() {
    let text = Buf::from("a\tb\nc");
    assert_eq!(Cursor::new(0).forward(&text, Metric::Head), Some(Cursor::new(2)));
    assert_eq!(Cursor::new(2).forward(&text, Metric::Head), Some(Cursor::new(4)));
}

#[test]
fn paragraph_after_blank_line() {
    let text = Buf::from("a\n\nb");
    assert_eq!(Cursor::new(0).forward(&text, Metric::Paragraph), Some(Cursor::new(3)));
    assert_eq!(Cursor::new(3).backward(&text, Metric::Paragraph), None);
    assert_eq!(Cursor::new(4).backward(&text, Metric::Paragraph), Some(Cursor::new(3)));
}

#[test]
fn bounded_stops_at_line_start() {
    let text = Buf::from("ab");
    let there = Cursor::new(1).backward(&text, Metric::Bounded);
    assert_eq!(there, Some(Cursor::new(0)));
    assert_eq!(there.unwrap().backward(&text, Metric::Bounded), None);
}

#[test]
fn bounded_does_not_cross_line_breaks() {
    let text = Buf::from("a\nb");
    assert_eq!(Cursor::new(1).forward(&text, Metric::Bounded), None);
    assert_eq!(Cursor::new(2).backward(&text, Metric::Bounded), None);
    assert_eq!(Cursor::new(1).forward(&text, Metric::Codepoint), Some(Cursor::new(2)));
}

#[test]
fn codepoint_forward_then_backward_returns() {
    let text = Buf::from("h\u{e9}\nllo");
    for offset in 0..text.len() {
        let c = Cursor::new(offset);
        let next = c.forward(&text, Metric::Codepoint).unwrap();
        assert_eq!(next.backward(&text, Metric::Codepoint), Some(c));
    }
    assert_eq!(Cursor::eof(&text).forward(&text, Metric::Codepoint), None);
    assert_eq!(Cursor::origin().backward(&text, Metric::Codepoint), None);
}

#[test]
fn empty_text_has_no_motion() {
    let text = Buf::from("");
    for metric in [
        Metric::Codepoint,
        Metric::Bounded,
        Metric::Line,
        Metric::Head,
        Metric::Tail,
        Metric::Paragraph,
    ] {
        assert_eq!(Cursor::origin().forward(&text, metric), None);
        assert_eq!(Cursor::origin().backward(&text, metric), None);
    }
}

#[test]
fn line_motion_keeps_its_column() {
    let text = Buf::from("abcd\nx\nabcd");
    let down = Cursor::new(3).forward(&text, Metric::Line).unwrap();
    assert_eq!(down, Cursor { offset: 6, column: Some(3) });
    let again = down.forward(&text, Metric::Line).unwrap();
    assert_eq!(again, Cursor { offset: 10, column: Some(3) });
    let up = again.backward(&text, Metric::Line).unwrap();
    assert_eq!(up.offset(), 6);
    assert_eq!(up.backward(&text, Metric::Line).unwrap().offset(), 3);
    assert_eq!(Cursor::new(3).backward(&text, Metric::Line), None);
    assert_eq!(Cursor::new(8).forward(&text, Metric::Line), None);
}

#[test]
fn line_motion_uses_display_width() {
    // Each of these two characters takes two columns.
    let text = Buf::from("\u{4e2d}\u{6587}x\nabcdef");
    let c = Cursor::new(2);
    assert_eq!(c.to_col(&text), 4);
    assert_eq!(c.col(&text), 2);
    let down = c.forward(&text, Metric::Line).unwrap();
    assert_eq!(down, Cursor { offset: 8, column: Some(4) });
    let back = Cursor::new(8).backward(&text, Metric::Line).unwrap();
    assert_eq!(back.offset(), 2);
}

#[test]
fn rows_and_columns() {
    let text = Buf::from("ab\ncde\n");
    assert_eq!(Cursor::new(0).row(&text), 0);
    assert_eq!(Cursor::new(4).row(&text), 1);
    assert_eq!(Cursor::new(4).col(&text), 1);
    assert_eq!(Cursor::new(7).row(&text), 2);
    assert_eq!(Cursor::eof(&text).offset(), 7);
}

#[test]
fn walk_goes_both_ways_from_one_anchor() {
    let text = Buf::from("one two three");
    let mut it = Cursor::new(4).iter(&text, Metric::Head);
    assert_eq!(it.next(), Some(Cursor::new(8)));
    assert_eq!(it.next_back(), Some(Cursor::new(4)));
    assert_eq!(it.next_back(), Some(Cursor::new(0)));
    assert_eq!(it.next_back(), None);
    assert_eq!(it.at(), Cursor::new(0));
}
