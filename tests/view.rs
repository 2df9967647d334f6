use six::{Buffer, Cursor, Overflow, TextEditState, TextEditView};

#[test]
fn state_takes_screen_position() {
    let mut buffer = Buffer::from("ab\n\u{4e2d}x");
    buffer.set_cursor(Cursor::new(4));
    let state = TextEditState::new(&buffer);
    assert_eq!(state.content, "ab\n\u{4e2d}x");
    assert_eq!(state.row, 1);
    assert_eq!(state.col, 2);
}

#[test]
fn scroll_keeps_cursor_visible() {
    let mut buffer = Buffer::from("0123456789\n\n\n\n");
    buffer.set_cursor(Cursor::new(8));
    let state = TextEditState::new(&buffer);
    let view = TextEditView::new(Overflow::Scroll);
    assert_eq!(view.scroll(5, 3, &state), (0, 4));
    assert_eq!(view.scroll(20, 1, &state), (0, 0));
    assert_eq!(view.focus(2, 1, 5, 3, &state), (6, 1));
    assert_eq!(view.overflow, Overflow::Scroll);
}
