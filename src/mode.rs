//! The mode state machine.
//!
//! A mode advances on one `Operation` at a time. Commands that need more
//! input park a pending action in the mode (`Operator` waits for a motion,
//! `Query` for text) and run it once that input arrives. Every transition is
//! stated by the spec function `step`, and `Mode::advance` is proved to follow
//! it.

use core::ops::Bound;

use vstd::prelude::*;

use crate::buffer::{splice, Buffer, Snapshot};
use crate::cursor::{
    at, find_line_end, find_line_start, line_end, line_start, next_spec, prev_spec, space_mask,
    spaces, Cursor, Metric,
};

verus! {

/// An abstract editing command, as the input layer hands it over.
#[derive(Clone, Copy, Debug, PartialEq, Eq, Structural)]
pub enum Operation {
    /// Return to the `Normal` mode, dropping any pending command.
    Escape,
    /// Enter the `Insert` mode.
    Insert,
    /// Step right within the line, then enter the `Insert` mode.
    Append,
    /// Start a selection anchored at the cursor.
    Select,
    /// Move left within the line.
    Left,
    /// Move right within the line.
    Right,
    /// Move to the line above.
    Up,
    /// Move to the line below.
    Down,
    /// Move one character back, across lines.
    Backward,
    /// Move one character forward, across lines.
    Forward,
    /// Move to the beginning of the line.
    Bol,
    /// Move to the end of the line.
    Eol,
    /// Move to the next word head, or the previous one if `reverse`.
    Head { reverse: bool },
    /// Move to the next word tail, or the previous one if `reverse`.
    Tail { reverse: bool },
    /// Move to the next paragraph, or the previous one if `reverse`.
    Paragraph { reverse: bool },
    /// Delete a region, or the character at the cursor while typing.
    Delete,
    /// Delete the character before the cursor while typing.
    Backspace,
    /// Surround a region with a pair of characters.
    Surround,
    /// Ask for a script and hand it to the scripting engine.
    Eval,
    /// Type a character.
    Input(char),
}

/// What an `Operator` does with the range it is given.
#[derive(Clone, Copy, Debug, PartialEq, Eq, Structural)]
pub enum RangeAction {
    /// Remove the range.
    Delete,
    /// Ask for two characters to put around the range.
    Surround,
}

/// What a `Query` does with the text it collects.
#[derive(Clone, Copy, Debug, PartialEq, Eq, Structural)]
pub enum TextAction {
    /// Put the first character at `start` and the second at `end`.
    Surround { start: usize, end: usize },
    /// Hand the text to the scripting engine.
    Eval,
}

/// A selection under way.
#[derive(Debug)]
pub struct Select {
    /// The fixed end of the selection.
    pub anchor: Cursor,
}

/// A command waiting for a motion to give it a range.
#[derive(Debug)]
pub struct Operator {
    /// What to do with the range.
    pub action: RangeAction,
}

/// A command waiting for text typed into a scratch buffer of its own.
#[derive(Debug)]
pub struct Query {
    /// The text typed so far, with its own cursor.
    pub buffer: Buffer,
    /// The number of characters that completes the query, if any.
    pub length: Option<usize>,
    /// What to do with the text.
    pub action: TextAction,
}

/// The editing mode.
#[derive(Debug)]
pub enum Mode {
    /// The default mode.
    Normal,
    /// Typed characters go into the text.
    Insert,
    /// A range is being selected.
    Select(Select),
    /// A command waits for a motion.
    Operator(Operator),
    /// A command waits for text.
    Query(Query),
}

/// The state an editing step works on: the main buffer, and the script that
/// the last step asked to run, if any.
#[derive(Debug)]
pub struct Context {
    /// The main buffer.
    pub buffer: Buffer,
    /// A script waiting to be handed to the scripting engine.
    pub script: Option<String>,
}

/// A mode, with the query's scratch buffer seen as a snapshot.
pub enum ModeView {
    Normal,
    Insert,
    Select(Cursor),
    Operator(RangeAction),
    Query { buffer: Snapshot, length: Option<usize>, action: TextAction },
}

/// A context seen as values.
pub struct ContextView {
    pub buffer: Snapshot,
    pub script: Option<Seq<char>>,
}

/// The result of one step: whether a batch may go on, the next mode, and
/// the context after the step.
pub struct Outcome {
    pub go: bool,
    pub mode: ModeView,
    pub context: ContextView,
}

impl View for Mode {
    type V = ModeView;

    open spec fn view(&self) -> ModeView {
        match self {
            Mode::Normal => ModeView::Normal,
            Mode::Insert => ModeView::Insert,
            Mode::Select(s) => ModeView::Select(s.anchor),
            Mode::Operator(o) => ModeView::Operator(o.action),
            Mode::Query(q) => ModeView::Query {
                buffer: q.buffer@,
                length: q.length,
                action: q.action,
            },
        }
    }
}

impl View for Context {
    type V = ContextView;

    open spec fn view(&self) -> ContextView {
        ContextView {
            buffer: self.buffer@,
            script: match self.script {
                Some(s) => Some(s@),
                None => None,
            },
        }
    }
}

/// The mode that a step result carries, whether it goes on or halts.
pub open spec fn outcome(r: Result<Mode, Mode>) -> Mode {
    match r {
        Ok(m) => m,
        Err(m) => m,
    }
}

/// The name a user sees for a mode.
pub open spec fn mode_name(m: ModeView) -> Seq<char> {
    match m {
        ModeView::Normal => "Normal"@,
        ModeView::Insert => "Insert"@,
        ModeView::Select(_) => "Select"@,
        ModeView::Operator(RangeAction::Delete) => "Delete"@,
        ModeView::Operator(RangeAction::Surround) => "Surround"@,
        ModeView::Query { action: TextAction::Surround { .. }, .. } => "Surround with"@,
        ModeView::Query { action: TextAction::Eval, .. } => "Eval"@,
    }
}

/// Whether the mode's stored positions fit a main text of `n` characters.
pub open spec fn mode_wf(m: ModeView, n: nat) -> bool {
    match m {
        ModeView::Select(a) => a.offset <= n,
        ModeView::Query { buffer, length, action } => {
            &&& buffer.cursor.offset <= buffer.text.len()
            &&& (action matches TextAction::Surround { start, end } ==> start <= end <= n)
        },
        _ => true,
    }
}

/// A step that lets a batch go on.
pub open spec fn go(mode: ModeView, context: ContextView) -> Outcome {
    Outcome { go: true, mode, context }
}

/// A step that stops a batch.
pub open spec fn halt(mode: ModeView, context: ContextView) -> Outcome {
    Outcome { go: false, mode, context }
}

/// The context with its buffer replaced.
pub open spec fn with_buffer(ctx: ContextView, buffer: Snapshot) -> ContextView {
    ContextView { buffer, script: ctx.script }
}

/// The snapshot after typing `ch` at the cursor.
pub open spec fn typed(b: Snapshot, ch: char) -> Snapshot {
    Snapshot {
        text: b.text.insert(b.cursor.offset as int, ch),
        cursor: at(b.cursor.offset + 1),
    }
}

/// The snapshot after removing the character at the cursor, if there is one.
pub open spec fn erased_forward(b: Snapshot) -> Snapshot {
    let o = b.cursor.offset as int;
    if o < b.text.len() {
        Snapshot { text: splice(b.text, o, o + 1, Seq::empty()), cursor: b.cursor }
    } else {
        b
    }
}

/// The snapshot after removing the character before the cursor; the cursor
/// must not be at the start.
pub open spec fn erased_backward(b: Snapshot) -> Snapshot {
    let o = b.cursor.offset as int;
    Snapshot { text: splice(b.text, o - 1, o, Seq::empty()), cursor: at(o - 1) }
}

/// The end of `lo..hi` once whitespace at its end is left out, where `ws`
/// tells which characters are whitespace.
pub open spec fn trim_end(ws: Seq<bool>, lo: int, hi: int) -> int
    decreases hi,
{
    if hi > lo && hi > 0 && ws[hi - 1] {
        trim_end(ws, lo, hi - 1)
    } else {
        hi
    }
}

/// Whether an operation moves the cursor.
pub open spec fn is_motion(op: Operation) -> bool {
    match op {
        Operation::Left | Operation::Right | Operation::Up | Operation::Down
        | Operation::Backward | Operation::Forward | Operation::Bol | Operation::Eol
        | Operation::Head { .. } | Operation::Tail { .. } | Operation::Paragraph { .. } => true,
        _ => false,
    }
}

/// Where a motion takes cursor `c` in text `s`, or `None` when it cannot move.
pub open spec fn target(op: Operation, s: Seq<char>, c: Cursor) -> Option<Cursor> {
    match op {
        Operation::Left => prev_spec(Metric::Bounded, s, c),
        Operation::Right => next_spec(Metric::Bounded, s, c),
        Operation::Up => prev_spec(Metric::Line, s, c),
        Operation::Down => next_spec(Metric::Line, s, c),
        Operation::Backward => prev_spec(Metric::Codepoint, s, c),
        Operation::Forward => next_spec(Metric::Codepoint, s, c),
        Operation::Bol => Some(at(line_start(s, c.offset as int))),
        Operation::Eol => Some(at(line_end(s, c.offset as int))),
        Operation::Head { reverse } => if reverse {
            prev_spec(Metric::Head, s, c)
        } else {
            next_spec(Metric::Head, s, c)
        },
        Operation::Tail { reverse } => if reverse {
            prev_spec(Metric::Tail, s, c)
        } else {
            next_spec(Metric::Tail, s, c)
        },
        Operation::Paragraph { reverse } => if reverse {
            prev_spec(Metric::Paragraph, s, c)
        } else {
            next_spec(Metric::Paragraph, s, c)
        },
        _ => None,
    }
}

/// An operator applied to the range `lo..hi` of the main text.
pub open spec fn fire_range(a: RangeAction, ctx: ContextView, lo: int, hi: int) -> Outcome {
    match a {
        RangeAction::Delete => go(
            ModeView::Normal,
            with_buffer(
                ctx,
                Snapshot { text: splice(ctx.buffer.text, lo, hi, Seq::empty()), cursor: at(lo) },
            ),
        ),
        RangeAction::Surround => go(
            ModeView::Query {
                buffer: Snapshot { text: Seq::empty(), cursor: at(0) },
                length: Some(2),
                action: TextAction::Surround {
                    start: lo as usize,
                    end: trim_end(spaces(ctx.buffer.text), lo, hi) as usize,
                },
            },
            ctx,
        ),
    }
}

/// A query's action applied to the text `t` it collected.
pub open spec fn fire_text(a: TextAction, ctx: ContextView, t: Seq<char>) -> Outcome {
    match a {
        TextAction::Surround { start, end } => if t.len() >= 2 {
            go(
                ModeView::Normal,
                with_buffer(
                    ctx,
                    Snapshot {
                        text: ctx.buffer.text.insert(end as int, t[1]).insert(start as int, t[0]),
                        cursor: at(start as int),
                    },
                ),
            )
        } else {
            halt(ModeView::Normal, ctx)
        },
        TextAction::Eval => go(
            ModeView::Normal,
            ContextView { buffer: ctx.buffer, script: Some(t) },
        ),
    }
}

/// A query that cannot move its cursor halts, and gives up when it holds no
/// text.
pub open spec fn stuck(b: Snapshot, length: Option<usize>, a: TextAction, ctx: ContextView) -> Outcome {
    if b.text.len() == 0 {
        halt(ModeView::Normal, ctx)
    } else {
        halt(ModeView::Query { buffer: b, length, action: a }, ctx)
    }
}

/// One step of a `Query` whose scratch buffer is `b`.
pub open spec fn query_step(
    b: Snapshot,
    length: Option<usize>,
    a: TextAction,
    ctx: ContextView,
    op: Operation,
) -> Outcome {
    match op {
        Operation::Input(ch) => {
            let t = typed(b, ch);
            if ch == '\n' || (length matches Some(n) && n == t.text.len()) {
                fire_text(a, ctx, t.text)
            } else {
                go(ModeView::Query { buffer: t, length, action: a }, ctx)
            }
        },
        Operation::Delete => go(
            ModeView::Query { buffer: erased_forward(b), length, action: a },
            ctx,
        ),
        Operation::Backspace => if b.cursor.offset > 0 {
            go(ModeView::Query { buffer: erased_backward(b), length, action: a }, ctx)
        } else {
            stuck(b, length, a, ctx)
        },
        _ => if is_motion(op) {
            match target(op, b.text, b.cursor) {
                Some(c) => go(
                    ModeView::Query { buffer: Snapshot { text: b.text, cursor: c }, length, action: a },
                    ctx,
                ),
                None => stuck(b, length, a, ctx),
            }
        } else {
            halt(ModeView::Query { buffer: b, length, action: a }, ctx)
        },
    }
}

/// One step of the `Insert` mode.
pub open spec fn insert_step(ctx: ContextView, op: Operation) -> Outcome {
    let b = ctx.buffer;
    match op {
        Operation::Input(ch) => go(ModeView::Insert, with_buffer(ctx, typed(b, ch))),
        Operation::Delete => go(ModeView::Insert, with_buffer(ctx, erased_forward(b))),
        Operation::Backspace => if b.cursor.offset > 0 {
            go(ModeView::Insert, with_buffer(ctx, erased_backward(b)))
        } else {
            halt(ModeView::Insert, ctx)
        },
        _ => if is_motion(op) {
            match target(op, b.text, b.cursor) {
                Some(c) => go(ModeView::Insert, with_buffer(ctx, Snapshot { text: b.text, cursor: c })),
                None => halt(ModeView::Normal, ctx),
            }
        } else {
            halt(ModeView::Insert, ctx)
        },
    }
}

/// One step of the `Normal`, `Select` and `Operator` modes.
pub open spec fn command_step(m: ModeView, ctx: ContextView, op: Operation) -> Outcome {
    let b = ctx.buffer;
    let c = b.cursor;
    if is_motion(op) {
        match target(op, b.text, c) {
            None => halt(ModeView::Normal, ctx),
            Some(d) => {
                let moved = with_buffer(ctx, Snapshot { text: b.text, cursor: d });
                match m {
                    ModeView::Operator(a) => if c.offset <= d.offset {
                        fire_range(a, moved, c.offset as int, d.offset as int)
                    } else {
                        fire_range(a, moved, d.offset as int, c.offset as int)
                    },
                    _ => go(m, moved),
                }
            },
        }
    } else {
        match m {
            ModeView::Normal => match op {
                Operation::Append => go(
                    ModeView::Insert,
                    with_buffer(
                        ctx,
                        Snapshot {
                            text: b.text,
                            cursor: match next_spec(Metric::Bounded, b.text, c) {
                                Some(d) => d,
                                None => c,
                            },
                        },
                    ),
                ),
                Operation::Select => go(ModeView::Select(c), ctx),
                Operation::Delete => go(ModeView::Operator(RangeAction::Delete), ctx),
                Operation::Surround => go(ModeView::Operator(RangeAction::Surround), ctx),
                Operation::Eval => go(
                    ModeView::Query {
                        buffer: Snapshot { text: Seq::empty(), cursor: at(0) },
                        length: None,
                        action: TextAction::Eval,
                    },
                    ctx,
                ),
                _ => halt(m, ctx),
            },
            ModeView::Select(a) => {
                let (lo, hi) = if a.offset <= c.offset {
                    (a.offset as int, c.offset as int)
                } else {
                    (c.offset as int, a.offset as int)
                };
                match op {
                    Operation::Select => go(ModeView::Select(c), ctx),
                    Operation::Delete => fire_range(RangeAction::Delete, ctx, lo, hi),
                    Operation::Surround => fire_range(RangeAction::Surround, ctx, lo, hi),
                    _ => halt(m, ctx),
                }
            },
            _ => halt(m, ctx),
        }
    }
}

/// One step of the mode state machine.
pub open spec fn step(m: ModeView, ctx: ContextView, op: Operation) -> Outcome {
    match op {
        Operation::Escape => go(ModeView::Normal, ctx),
        Operation::Insert => go(ModeView::Insert, ctx),
        _ => match m {
            ModeView::Query { buffer, length, action } => query_step(buffer, length, action, ctx, op),
            ModeView::Insert => insert_step(ctx, op),
            _ => command_step(m, ctx, op),
        },
    }
}

/// A query of fixed length `n` runs its action as soon as its `n`-th
/// character is typed, with no line break needed; before that, a character
/// other than a line break leaves it waiting.
pub proof fn lemma_query_fires_when_full(
    b: Snapshot,
    n: usize,
    a: TextAction,
    ctx: ContextView,
    ch: char,
)
    requires
        b.cursor.offset <= b.text.len(),
    ensures
        b.text.len() + 1 == n ==> step(
            ModeView::Query { buffer: b, length: Some(n), action: a },
            ctx,
            Operation::Input(ch),
        ) == fire_text(a, ctx, b.text.insert(b.cursor.offset as int, ch)),
        b.text.len() + 1 == n ==> !(step(
            ModeView::Query { buffer: b, length: Some(n), action: a },
            ctx,
            Operation::Input(ch),
        ).mode is Query),
        b.text.len() + 1 < n && ch != '\n' ==> step(
            ModeView::Query { buffer: b, length: Some(n), action: a },
            ctx,
            Operation::Input(ch),
        ) == go(ModeView::Query { buffer: typed(b, ch), length: Some(n), action: a }, ctx),
{
}

/// `Escape` from a pending operator or query returns to `Normal` and leaves
/// the context, its text included, exactly as it was.
pub proof fn lemma_escape_discards(m: ModeView, ctx: ContextView)
    requires
        m is Operator || m is Query,
    ensures
        step(m, ctx, Operation::Escape) == go(ModeView::Normal, ctx),
        step(m, ctx, Operation::Escape).context.buffer.text == ctx.buffer.text,
{
}

/// Returns the end of `lo..hi` once whitespace at its end is left out,
/// where `ws` tells which characters are whitespace.
pub fn trimmed_end(ws: &Vec<bool>, lo: usize, hi: usize) -> (r: usize)
    requires
        lo <= hi <= ws@.len(),
    ensures
        r == trim_end(ws@, lo as int, hi as int),
        lo <= r <= hi,
{
    let mut e: usize = hi;
    while e > lo && ws[e - 1]
        invariant
            lo <= e <= hi <= ws@.len(),
            trim_end(ws@, lo as int, hi as int) == trim_end(ws@, lo as int, e as int),
        decreases e,
    {
        e = e - 1;
    }
    e
}

/// Returns whether `op` moves the cursor.
fn moves(op: Operation) -> (r: bool)
    ensures
        r == is_motion(op),
{
    match op {
        Operation::Left | Operation::Right | Operation::Up | Operation::Down
        | Operation::Backward | Operation::Forward | Operation::Bol | Operation::Eol
        | Operation::Head { .. } | Operation::Tail { .. } | Operation::Paragraph { .. } => true,
        _ => false,
    }
}

/// Returns where motion `op` takes the cursor of `buffer`, or `None` when it
/// cannot move.
fn motion(buffer: &Buffer, op: Operation) -> (r: Option<Cursor>)
    requires
        buffer.wf(),
    ensures
        r == target(op, buffer@.text, buffer@.cursor),
        r matches Some(d) ==> d.offset <= buffer@.text.len(),
{
    let c = buffer.cursor();
    let text = buffer.content();
    match op {
        Operation::Left => c.backward(text, Metric::Bounded),
        Operation::Right => c.forward(text, Metric::Bounded),
        Operation::Up => c.backward(text, Metric::Line),
        Operation::Down => c.forward(text, Metric::Line),
        Operation::Backward => c.backward(text, Metric::Codepoint),
        Operation::Forward => c.forward(text, Metric::Codepoint),
        Operation::Bol => Some(Cursor::new(find_line_start(text, c.offset))),
        Operation::Eol => Some(Cursor::new(find_line_end(text, c.offset))),
        Operation::Head { reverse } => if reverse {
            c.backward(text, Metric::Head)
        } else {
            c.forward(text, Metric::Head)
        },
        Operation::Tail { reverse } => if reverse {
            c.backward(text, Metric::Tail)
        } else {
            c.forward(text, Metric::Tail)
        },
        Operation::Paragraph { reverse } => if reverse {
            c.backward(text, Metric::Paragraph)
        } else {
            c.forward(text, Metric::Paragraph)
        },
        _ => None,
    }
}

/// Removes the character at the cursor, if there is one.
fn erase_forward(b: &mut Buffer)
    requires
        old(b).wf(),
    ensures
        final(b)@ == erased_forward(old(b)@),
        final(b).wf(),
{
    let c = b.cursor();
    if c.offset < b.content().len() {
        b.delete((Bound::Included(c), Bound::Excluded(Cursor::new(c.offset + 1))));
    }
}

/// Removes the character before the cursor and steps back over it.
fn erase_backward(b: &mut Buffer)
    requires
        old(b).wf(),
        old(b)@.cursor.offset > 0,
    ensures
        final(b)@ == erased_backward(old(b)@),
        final(b).wf(),
{
    let o = b.cursor().offset;
    let before = Cursor::new(o - 1);
    b.set_cursor(before);
    b.delete((Bound::Included(before), Bound::Excluded(Cursor::new(o))));
}

/// Applies an operator to the range `lo..hi` of the main buffer.
fn apply_range(action: RangeAction, context: &mut Context, lo: usize, hi: usize) -> (r: Result<
    Mode,
    Mode,
>)
    requires
        old(context).buffer.wf(),
        lo <= hi <= old(context)@.buffer.text.len(),
    ensures
        (Outcome { go: r is Ok, mode: outcome(r)@, context: final(context)@ }) == fire_range(
            action,
            old(context)@,
            lo as int,
            hi as int,
        ),
        final(context).buffer.wf(),
        outcome(r).wf(final(context)@.buffer.text.len()),
{
    match action {
        RangeAction::Delete => {
            context.buffer.delete((Bound::Included(Cursor::new(lo)), Bound::Excluded(Cursor::new(hi))));
            context.buffer.set_cursor(Cursor::new(lo));
            Ok(Mode::Normal)
        },
        RangeAction::Surround => {
            let ws = space_mask(context.buffer.content());
            let end = trimmed_end(&ws, lo, hi);
            Mode::to_query(TextAction::Surround { start: lo, end }, Some(2))
        },
    }
}

/// Applies a query's action to the text it collected.
fn apply_text(action: TextAction, context: &mut Context, text: &Buffer) -> (r: Result<Mode, Mode>)
    requires
        old(context).buffer.wf(),
        action matches TextAction::Surround { start, end } ==> start <= end
            <= old(context)@.buffer.text.len(),
    ensures
        (Outcome { go: r is Ok, mode: outcome(r)@, context: final(context)@ }) == fire_text(
            action,
            old(context)@,
            text@.text,
        ),
        final(context).buffer.wf(),
        outcome(r).wf(final(context)@.buffer.text.len()),
{
    match action {
        TextAction::Surround { start, end } => {
            let chars = text.content();
            if chars.len() >= 2 {
                let prefix = chars.char_at(0);
                let suffix = chars.char_at(1);
                context.buffer.insert(suffix, Cursor::new(end));
                context.buffer.insert(prefix, Cursor::new(start));
                context.buffer.set_cursor(Cursor::new(start));
                Mode::escape()
            } else {
                Mode::abort()
            }
        },
        TextAction::Eval => {
            context.script = Some(text.to_string());
            Mode::escape()
        },
    }
}

impl Operator {
    /// Creates an operator that will apply `action`.
    pub fn new(action: RangeAction) -> (r: Operator)
        ensures
            r.action == action,
    {
        Operator { action }
    }
}

impl Query {
    /// Creates a query with an empty scratch buffer that will apply `action`
    /// once `length` characters, or a line break, have been typed.
    pub fn new(action: TextAction, length: Option<usize>) -> (r: Query)
        ensures
            r.buffer@ == (Snapshot { text: Seq::empty(), cursor: at(0) }),
            r.length == length,
            r.action == action,
    {
        Query { buffer: Buffer::new(), length, action }
    }

    /// Advances the query by one operation other than `Escape` and `Insert`.
    fn advance(self, context: &mut Context, operation: Operation) -> (r: Result<Mode, Mode>)
        requires
            old(context).buffer.wf(),
            mode_wf(Mode::Query(self)@, old(context)@.buffer.text.len()),
        ensures
            (Outcome { go: r is Ok, mode: outcome(r)@, context: final(context)@ }) == query_step(
                self.buffer@,
                self.length,
                self.action,
                old(context)@,
                operation,
            ),
            final(context).buffer.wf(),
            outcome(r).wf(final(context)@.buffer.text.len()),
    {
        let mut q = self;
        match operation {
            Operation::Input(ch) => {
                q.buffer.append(ch);
                let n = q.buffer.content().len();
                let full = match q.length {
                    Some(k) => k == n,
                    None => false,
                };
                if ch == '\n' || full {
                    apply_text(q.action, context, &q.buffer)
                } else {
                    Ok(Mode::Query(q))
                }
            },
            Operation::Delete => {
                erase_forward(&mut q.buffer);
                Ok(Mode::Query(q))
            },
            Operation::Backspace => if q.buffer.cursor().offset > 0 {
                erase_backward(&mut q.buffer);
                Ok(Mode::Query(q))
            } else {
                q.stuck()
            },
            _ => if moves(operation) {
                match motion(&q.buffer, operation) {
                    Some(c) => {
                        q.buffer.set_cursor(c);
                        Ok(Mode::Query(q))
                    },
                    None => q.stuck(),
                }
            } else {
                Err(Mode::Query(q))
            },
        }
    }

    /// Halts a query that cannot move its cursor; gives it up when it holds
    /// no text.
    fn stuck(self) -> (r: Result<Mode, Mode>)
        ensures
            r is Err,
            self.buffer@.text.len() == 0 ==> outcome(r)@ == ModeView::Normal,
            self.buffer@.text.len() != 0 ==> outcome(r)@ == Mode::Query(self)@,
            self.buffer@.text.len() != 0 ==> outcome(r) == Mode::Query(self),
    {
        if self.buffer.content().is_empty() {
            Mode::abort()
        } else {
            Err(Mode::Query(self))
        }
    }
}

/// Advances the `Insert` mode by one operation other than `Escape` and
/// `Insert`.
fn insert_advance(context: &mut Context, operation: Operation) -> (r: Result<Mode, Mode>)
    requires
        old(context).buffer.wf(),
    ensures
        (Outcome { go: r is Ok, mode: outcome(r)@, context: final(context)@ }) == insert_step(
            old(context)@,
            operation,
        ),
        final(context).buffer.wf(),
        outcome(r).wf(final(context)@.buffer.text.len()),
{
    match operation {
        Operation::Input(ch) => {
            context.buffer.append(ch);
            Ok(Mode::Insert)
        },
        Operation::Delete => {
            erase_forward(&mut context.buffer);
            Ok(Mode::Insert)
        },
        Operation::Backspace => if context.buffer.cursor().offset > 0 {
            erase_backward(&mut context.buffer);
            Ok(Mode::Insert)
        } else {
            Err(Mode::Insert)
        },
        _ => if moves(operation) {
            match motion(&context.buffer, operation) {
                Some(c) => {
                    context.buffer.set_cursor(c);
                    Ok(Mode::Insert)
                },
                None => Mode::abort(),
            }
        } else {
            Err(Mode::Insert)
        },
    }
}

impl Mode {
    /// The mode's stored positions fit a main text of `n` characters.
    pub open spec fn wf(&self, n: nat) -> bool {
        mode_wf(self@, n)
    }

    /// Halts the current command and returns to the `Normal` mode.
    pub fn abort() -> (r: Result<Mode, Mode>)
        ensures
            r matches Err(Mode::Normal),
    {
        Err(Mode::Normal)
    }

    /// Enters the `Normal` mode.
    pub fn escape() -> (r: Result<Mode, Mode>)
        ensures
            r matches Ok(Mode::Normal),
    {
        Ok(Mode::Normal)
    }

    /// Enters the `Insert` mode.
    pub fn to_insert() -> (r: Result<Mode, Mode>)
        ensures
            r matches Ok(Mode::Insert),
    {
        Ok(Mode::Insert)
    }

    /// Enters the `Operator` mode, waiting to apply `action`.
    pub fn to_operator(action: RangeAction) -> (r: Result<Mode, Mode>)
        ensures
            r is Ok,
            outcome(r)@ == ModeView::Operator(action),
    {
        Ok(Mode::Operator(Operator::new(action)))
    }

    /// Enters the `Query` mode, waiting to apply `action` to `length`
    /// characters, or to a line.
    pub fn to_query(action: TextAction, length: Option<usize>) -> (r: Result<Mode, Mode>)
        ensures
            r is Ok,
            outcome(r)@ == (ModeView::Query {
                buffer: Snapshot { text: Seq::empty(), cursor: at(0) },
                length,
                action,
            }),
    {
        Ok(Mode::Query(Query::new(action, length)))
    }

    /// Returns a name for the mode that a user would recognise.
    pub fn name(&self) -> (r: &'static str)
        ensures
            r@ == mode_name(self@),
    {
        match self {
            Mode::Normal => "Normal",
            Mode::Insert => "Insert",
            Mode::Select(_) => "Select",
            Mode::Operator(o) => match o.action {
                RangeAction::Delete => "Delete",
                RangeAction::Surround => "Surround",
            },
            Mode::Query(q) => match q.action {
                TextAction::Surround { .. } => "Surround with",
                TextAction::Eval => "Eval",
            },
        }
    }

    /// Advances a `Normal`, `Select` or `Operator` mode by one operation
    /// other than `Escape` and `Insert`.
    fn command(self, context: &mut Context, operation: Operation) -> (r: Result<Mode, Mode>)
        requires
            old(context).buffer.wf(),
            self.wf(old(context)@.buffer.text.len()),
            !(self is Query),
            !(self is Insert),
        ensures
            (Outcome { go: r is Ok, mode: outcome(r)@, context: final(context)@ }) == command_step(
                self@,
                old(context)@,
                operation,
            ),
            final(context).buffer.wf(),
            outcome(r).wf(final(context)@.buffer.text.len()),
    {
        let c = context.buffer.cursor();
        if moves(operation) {
            match motion(&context.buffer, operation) {
                None => Mode::abort(),
                Some(d) => {
                    context.buffer.set_cursor(d);
                    match self {
                        Mode::Operator(o) => if c.offset <= d.offset {
                            apply_range(o.action, context, c.offset, d.offset)
                        } else {
                            apply_range(o.action, context, d.offset, c.offset)
                        },
                        m => Ok(m),
                    }
                },
            }
        } else {
            match self {
                Mode::Normal => match operation {
                    Operation::Append => {
                        context.buffer.forward(Metric::Bounded);
                        Mode::to_insert()
                    },
                    Operation::Select => Ok(Mode::Select(Select { anchor: c })),
                    Operation::Delete => Mode::to_operator(RangeAction::Delete),
                    Operation::Surround => Mode::to_operator(RangeAction::Surround),
                    Operation::Eval => Mode::to_query(TextAction::Eval, None),
                    _ => Err(Mode::Normal),
                },
                Mode::Select(s) => {
                    let a = s.anchor;
                    let (lo, hi) = if a.offset <= c.offset {
                        (a.offset, c.offset)
                    } else {
                        (c.offset, a.offset)
                    };
                    match operation {
                        Operation::Select => Ok(Mode::Select(Select { anchor: c })),
                        Operation::Delete => apply_range(RangeAction::Delete, context, lo, hi),
                        Operation::Surround => apply_range(RangeAction::Surround, context, lo, hi),
                        _ => Err(Mode::Select(s)),
                    }
                },
                m => Err(m),
            }
        }
    }

    /// Advances the mode by one operation, editing `context` on the way.
    ///
    /// `Ok` carries the next mode of a step after which a batch may go on;
    /// `Err` carries the mode to stay in when the step halts a batch.
    pub fn advance(self, context: &mut Context, operation: Operation) -> (r: Result<Mode, Mode>)
        requires
            old(context).buffer.wf(),
            self.wf(old(context)@.buffer.text.len()),
        ensures
            (Outcome { go: r is Ok, mode: outcome(r)@, context: final(context)@ }) == step(
                self@,
                old(context)@,
                operation,
            ),
            final(context).buffer.wf(),
            outcome(r).wf(final(context)@.buffer.text.len()),
    {
        match operation {
            Operation::Escape => Mode::escape(),
            Operation::Insert => Mode::to_insert(),
            _ => match self {
                Mode::Query(q) => q.advance(context, operation),
                Mode::Insert => insert_advance(context, operation),
                m => m.command(context, operation),
            },
        }
    }
}

} // verus!
