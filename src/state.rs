//! The editor: the main buffer, the active mode, and batches of operations.

use core::ops::Bound;

use vstd::prelude::*;

use crate::buffer::{end_index, range_within, splice, start_index, Buf, Buffer, Snapshot};
use crate::cursor::{at, Cursor};
use crate::mode::{mode_wf, outcome, step, Context, ContextView, Mode, ModeView, Operation, Outcome};

verus! {

/// The editor seen as values.
pub struct StateView {
    pub mode: ModeView,
    pub context: ContextView,
}

/// Where a batch of operations stops, and what it leaves behind.
pub struct Run {
    /// The number of operations applied.
    pub count: nat,
    pub mode: ModeView,
    pub context: ContextView,
}

/// Applies `ops[i..]` in order, from mode `m` and context `ctx`. The batch
/// stops after a step that halts, and after a step that leaves a script to
/// run, so that the script runs before the operations after it.
pub open spec fn run_from(m: ModeView, ctx: ContextView, ops: Seq<Operation>, i: int) -> Run
    decreases ops.len() - i,
{
    if i < 0 || i >= ops.len() {
        Run { count: i as nat, mode: m, context: ctx }
    } else {
        let o = step(m, ctx, ops[i]);
        if !o.go || o.context.script is Some {
            Run { count: (i + 1) as nat, mode: o.mode, context: o.context }
        } else {
            run_from(o.mode, o.context, ops, i + 1)
        }
    }
}

/// A modal editor.
#[derive(Debug)]
pub struct State {
    context: Context,
    mode: Mode,
}

impl View for State {
    type V = StateView;

    closed spec fn view(&self) -> StateView {
        StateView { mode: self.mode@, context: self.context@ }
    }
}

impl State {
    /// The cursor lies within the text, and so do the positions the mode
    /// keeps.
    pub closed spec fn wf(&self) -> bool {
        &&& self.context.buffer.wf()
        &&& self.mode.wf(self.context@.buffer.text.len())
    }

    /// Creates an editor in the `Normal` mode over an empty text.
    pub fn new() -> (r: State)
        ensures
            r@ == (StateView {
                mode: ModeView::Normal,
                context: ContextView {
                    buffer: Snapshot { text: Seq::empty(), cursor: at(0) },
                    script: None,
                },
            }),
            r.wf(),
    {
        State { context: Context { buffer: Buffer::new(), script: None }, mode: Mode::Normal }
    }

    /// Creates an editor in the `Normal` mode over `text`, with the cursor at
    /// its start.
    pub fn from(text: &str) -> (r: State)
        ensures
            r@ == (StateView {
                mode: ModeView::Normal,
                context: ContextView {
                    buffer: Snapshot { text: text@, cursor: at(0) },
                    script: None,
                },
            }),
            r.wf(),
    {
        State {
            context: Context { buffer: Buffer::from(text), script: None },
            mode: Mode::Normal,
        }
    }

    /// Returns the active mode.
    pub fn mode(&self) -> (r: &Mode)
        ensures
            r@ == self@.mode,
    {
        &self.mode
    }

    /// Returns the cursor position.
    pub fn cursor(&self) -> (r: Cursor)
        ensures
            r == self@.context.buffer.cursor,
    {
        self.context.buffer.cursor()
    }

    /// Returns the main text.
    pub fn buffer(&self) -> (r: &Buf)
        ensures
            r@ == self@.context.buffer.text,
    {
        self.context.buffer.content()
    }

    /// Returns the main buffer, text and cursor.
    pub fn editor(&self) -> (r: &Buffer)
        ensures
            r@ == self@.context.buffer,
    {
        &self.context.buffer
    }

    /// Inserts `ch` at `at`, leaving the cursor where it is.
    pub fn insert(&mut self, at: Cursor, ch: char)
        requires
            old(self).wf(),
            at.offset <= old(self)@.context.buffer.text.len(),
        ensures
            final(self)@ == (StateView {
                mode: old(self)@.mode,
                context: ContextView {
                    buffer: Snapshot {
                        text: old(self)@.context.buffer.text.insert(at.offset as int, ch),
                        cursor: old(self)@.context.buffer.cursor,
                    },
                    script: old(self)@.context.script,
                },
            }),
            final(self).wf(),
    {
        self.context.buffer.insert(ch, at);
    }

    /// Inserts `ch` at the cursor, leaving the cursor where it is.
    pub fn insert_at_cursor(&mut self, ch: char)
        requires
            old(self).wf(),
        ensures
            final(self)@ == (StateView {
                mode: old(self)@.mode,
                context: ContextView {
                    buffer: Snapshot {
                        text: old(self)@.context.buffer.text.insert(
                            old(self)@.context.buffer.cursor.offset as int,
                            ch,
                        ),
                        cursor: old(self)@.context.buffer.cursor,
                    },
                    script: old(self)@.context.script,
                },
            }),
            final(self).wf(),
    {
        let at = self.context.buffer.cursor();
        self.context.buffer.insert(ch, at);
    }

    /// Replaces the text in `range` with `text`.
    ///
    /// The positions the mode keeps must still fit the new text.
    pub fn edit(&mut self, range: (Bound<Cursor>, Bound<Cursor>), text: &str)
        requires
            old(self).wf(),
            range_within(range, old(self)@.context.buffer.text.len() as int),
            mode_wf(
                old(self)@.mode,
                splice(
                    old(self)@.context.buffer.text,
                    start_index(range.0, old(self)@.context.buffer.text.len() as int),
                    end_index(range.1, old(self)@.context.buffer.text.len() as int),
                    text@,
                ).len(),
            ),
        ensures
            final(self)@.context.buffer.text == splice(
                old(self)@.context.buffer.text,
                start_index(range.0, old(self)@.context.buffer.text.len() as int),
                end_index(range.1, old(self)@.context.buffer.text.len() as int),
                text@,
            ),
            final(self)@.context.buffer.cursor == crate::buffer::clamp(
                old(self)@.context.buffer.cursor,
                final(self)@.context.buffer.text.len() as int,
            ),
            final(self)@.context.script == old(self)@.context.script,
            final(self)@.mode == old(self)@.mode,
            final(self).wf(),
    {
        self.context.buffer.edit(text, range);
    }

    /// Removes the text in `range`.
    ///
    /// The positions the mode keeps must still fit the new text.
    pub fn delete(&mut self, range: (Bound<Cursor>, Bound<Cursor>))
        requires
            old(self).wf(),
            range_within(range, old(self)@.context.buffer.text.len() as int),
            mode_wf(
                old(self)@.mode,
                splice(
                    old(self)@.context.buffer.text,
                    start_index(range.0, old(self)@.context.buffer.text.len() as int),
                    end_index(range.1, old(self)@.context.buffer.text.len() as int),
                    Seq::empty(),
                ).len(),
            ),
        ensures
            final(self)@.context.buffer.text == splice(
                old(self)@.context.buffer.text,
                start_index(range.0, old(self)@.context.buffer.text.len() as int),
                end_index(range.1, old(self)@.context.buffer.text.len() as int),
                Seq::empty(),
            ),
            final(self)@.context.buffer.cursor == crate::buffer::clamp(
                old(self)@.context.buffer.cursor,
                final(self)@.context.buffer.text.len() as int,
            ),
            final(self)@.context.script == old(self)@.context.script,
            final(self)@.mode == old(self)@.mode,
            final(self).wf(),
    {
        self.context.buffer.delete(range);
    }

    /// Applies one operation; returns whether a batch may go on after it.
    pub fn advance(&mut self, operation: Operation) -> (r: bool)
        requires
            old(self).wf(),
        ensures
            (Outcome { go: r, mode: final(self)@.mode, context: final(self)@.context }) == step(
                old(self)@.mode,
                old(self)@.context,
                operation,
            ),
            final(self).wf(),
    {
        let mut mode = Mode::Normal;
        core::mem::swap(&mut mode, &mut self.mode);
        let r = mode.advance(&mut self.context, operation);
        match r {
            Ok(next) => {
                self.mode = next;
                true
            },
            Err(next) => {
                self.mode = next;
                false
            },
        }
    }

    /// Applies `operations` in order and returns how many were applied. The
    /// batch stops after an operation that halts, and after one that leaves
    /// a script to run.
    pub fn run(&mut self, operations: &[Operation]) -> (r: usize)
        requires
            old(self).wf(),
        ensures
            ({
                let run = run_from(old(self)@.mode, old(self)@.context, operations@, 0);
                &&& r == run.count
                &&& final(self)@.mode == run.mode
                &&& final(self)@.context == run.context
            }),
            final(self).wf(),
    {
        let ghost m0 = self@.mode;
        let ghost c0 = self@.context;
        let mut i: usize = 0;
        while i < operations.len()
            invariant
                self.wf(),
                m0 == old(self)@.mode,
                c0 == old(self)@.context,
                i <= operations@.len(),
                run_from(m0, c0, operations@, 0) == run_from(
                    self@.mode,
                    self@.context,
                    operations@,
                    i as int,
                ),
            decreases operations@.len() - i,
        {
            let go = self.advance(operations[i]);
            let waiting = self.context.script.is_some();
            i = i + 1;
            if !go || waiting {
                return i;
            }
        }
        i
    }

    /// Takes the script that the last operations left to run, if any.
    pub fn take_script(&mut self) -> (r: Option<String>)
        requires
            old(self).wf(),
        ensures
            r matches Some(s) ==> old(self)@.context.script == Some(s@),
            r is None ==> old(self)@.context.script is None,
            final(self)@.context.script is None,
            final(self)@.context.buffer == old(self)@.context.buffer,
            final(self)@.mode == old(self)@.mode,
            final(self).wf(),
    {
        let mut script = None;
        core::mem::swap(&mut script, &mut self.context.script);
        script
    }
}

} // verus!
