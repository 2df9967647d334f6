use six::{Cursor, Mode, Operation, State};

fn run(state: &mut State, ops: &[Operation]) {
    for &op in ops {
        state.advance(op);
    }
}

#[test]
fn head_motion_moves_to_next_word() {
    let mut state = State::from("hello world");
    assert!(state.advance(Operation::Head { reverse: false }));
    assert_eq!(state.cursor().offset(), 6);
}

#[test]
fn delete_word() {
    let mut state = State::from("foo bar");
    assert_eq!(state.run(&[Operation::Delete, Operation::Head { reverse: false }]), 2);
    assert_eq!(state.buffer().to_string(), "bar");
    assert_eq!(state.mode().name(), "Normal");
    assert!(matches!(state.mode(), Mode::Normal));
    assert_eq!(state.cursor().offset(), 0);
}

#[test]
fn surround_a_selection() {
    let mut state = State::new();
    run(
        &mut state,
        &[
            Operation::Insert,
            Operation::Input('a'),
            Operation::Input('b'),
            Operation::Input('c'),
            Operation::Escape,
        ],
    );
    assert_eq!(state.buffer().to_string(), "abc");
    assert_eq!(state.cursor().offset(), 3);
    run(&mut state, &[Operation::Select, Operation::Bol, Operation::Surround]);
    assert_eq!(state.mode().name(), "Surround with");
    run(&mut state, &[Operation::Input('('), Operation::Input(')')]);
    assert_eq!(state.buffer().to_string(), "(abc)");
    assert!(matches!(state.mode(), Mode::Normal));
    assert_eq!(state.cursor().offset(), 0);
}

#[test]
fn surround_a_word_leaves_trailing_space_out() {
    let mut state = State::from("foo bar");
    let n = state.run(&[
        Operation::Surround,
        Operation::Head { reverse: false },
        Operation::Input('['),
        Operation::Input(']'),
    ]);
    assert_eq!(n, 4);
    assert_eq!(state.buffer().to_string(), "[foo] bar");
}

#[test]
fn paragraph_motion() {
    let mut state = State::from("a\n\nb");
    assert!(state.advance(Operation::Paragraph { reverse: false }));
    assert_eq!(state.cursor().offset(), 3);
}

#[test]
fn left_at_line_start_halts() {
    let mut state = State::from("ab");
    state.advance(Operation::Right);
    assert!(state.advance(Operation::Left));
    assert_eq!(state.cursor().offset(), 0);
    assert!(!state.advance(Operation::Left));
    assert_eq!(state.cursor().offset(), 0);
    assert!(matches!(state.mode(), Mode::Normal));
}

#[test]
fn query_fires_on_its_last_character() {
    let mut state = State::from("xy");
    run(&mut state, &[Operation::Surround, Operation::Eol, Operation::Input('<')]);
    assert_eq!(state.mode().name(), "Surround with");
    assert_eq!(state.buffer().to_string(), "xy");
    assert!(state.advance(Operation::Input('>')));
    assert_eq!(state.buffer().to_string(), "<xy>");
    assert_eq!(state.mode().name(), "Normal");
}

#[test]
fn escape_drops_a_pending_operator() {
    let mut state = State::from("foo bar");
    state.advance(Operation::Delete);
    assert_eq!(state.mode().name(), "Delete");
    assert!(state.advance(Operation::Escape));
    assert!(matches!(state.mode(), Mode::Normal));
    assert_eq!(state.buffer().to_string(), "foo bar");
}

#[test]
fn escape_drops_a_pending_query() {
    let mut state = State::from("foo bar");
    run(
        &mut state,
        &[Operation::Surround, Operation::Tail { reverse: false }, Operation::Input('(')],
    );
    assert!(matches!(state.mode(), Mode::Query(_)));
    assert!(state.advance(Operation::Escape));
    assert!(matches!(state.mode(), Mode::Normal));
    assert_eq!(state.buffer().to_string(), "foo bar");
}

#[test]
fn failed_motion_aborts_an_operator() {
    let mut state = State::from("foo");
    let n = state.run(&[
        Operation::Delete,
        Operation::Head { reverse: true },
        Operation::Input('z'),
    ]);
    assert_eq!(n, 2);
    assert!(matches!(state.mode(), Mode::Normal));
    assert_eq!(state.buffer().to_string(), "foo");
}

#[test]
fn insert_mode_types_and_erases() {
    let mut state = State::from("ac");
    run(&mut state, &[Operation::Append, Operation::Input('b')]);
    assert_eq!(state.mode().name(), "Insert");
    assert_eq!(state.buffer().to_string(), "abc");
    assert_eq!(state.cursor().offset(), 2);
    assert!(state.advance(Operation::Backspace));
    assert_eq!(state.buffer().to_string(), "ac");
    assert!(state.advance(Operation::Delete));
    assert_eq!(state.buffer().to_string(), "a");
    assert!(state.advance(Operation::Backspace));
    assert!(!state.advance(Operation::Backspace));
    assert_eq!(state.mode().name(), "Insert");
}

#[test]
fn eval_leaves_a_script() {
    let mut state = State::from("text");
    let ops = [
        Operation::Eval,
        Operation::Input('g'),
        Operation::Input('o'),
        Operation::Input('\n'),
        Operation::Right,
    ];
    assert_eq!(state.run(&ops[..2]), 2);
    assert_eq!(state.mode().name(), "Eval");
    assert_eq!(state.run(&ops[2..]), 2);
    assert_eq!(state.take_script(), Some(String::from("go\n")));
    assert_eq!(state.take_script(), None);
    assert!(matches!(state.mode(), Mode::Normal));
    assert_eq!(state.cursor().offset(), 0);
}

#[test]
fn query_backspace_at_start() {
    let mut state = State::new();
    run(&mut state, &[Operation::Eval, Operation::Input('x'), Operation::Left]);
    assert_eq!(state.mode().name(), "Eval");
    assert!(!state.advance(Operation::Left));
    assert_eq!(state.mode().name(), "Eval");
    assert!(state.advance(Operation::Delete));
    assert!(!state.advance(Operation::Backspace));
    assert!(matches!(state.mode(), Mode::Normal));
}

#[test]
fn select_then_delete() {
    let mut state = State::from("one two");
    run(
        &mut state,
        &[Operation::Head { reverse: false }, Operation::Select, Operation::Eol, Operation::Delete],
    );
    assert_eq!(state.buffer().to_string(), "one ");
    assert_eq!(state.cursor(), Cursor::new(4));
    assert_eq!(state.mode().name(), "Normal");
}

#[test]
fn surround_with_too_short_text_aborts() {
    let mut state = State::from("ab");
    let n = state.run(&[
        Operation::Surround,
        Operation::Eol,
        Operation::Input('\n'),
    ]);
    assert_eq!(n, 3);
    assert_eq!(state.buffer().to_string(), "ab");
    assert!(matches!(state.mode(), Mode::Normal));
}

#[test]
fn scripting_handle_edits() {
    let mut state = State::from("ab");
    state.insert_at_cursor('x');
    assert_eq!(state.buffer().to_string(), "xab");
    let at = state.cursor();
    state.delete((std::ops::Bound::Included(at), std::ops::Bound::Included(at)));
    assert_eq!(state.buffer().to_string(), "ab");
    state.insert(Cursor::new(2), '!');
    assert_eq!(state.editor().to_string(), "ab!");
}

#[test]
fn mode_names() {
    assert_eq!(Mode::Normal.name(), "Normal");
    assert_eq!(Mode::Insert.name(), "Insert");
    assert!(matches!(Mode::abort(), Err(Mode::Normal)));
    assert!(matches!(Mode::escape(), Ok(Mode::Normal)));
    assert!(matches!(Mode::to_insert(), Ok(Mode::Insert)));
    let op = Mode::to_operator(six::RangeAction::Surround).unwrap();
    assert_eq!(op.name(), "Surround");
    let query = Mode::to_query(six::TextAction::Eval, None).unwrap();
    assert_eq!(query.name(), "Eval");
}
