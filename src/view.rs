//! What a terminal view of a buffer needs: the text, the cursor's place on
//! screen, and how to scroll so that the cursor stays visible.

use vstd::prelude::*;

use crate::buffer::Buffer;
use crate::cursor::{breaks, column_of};

verus! {

/// How a view treats lines longer than it is wide.
#[derive(Clone, Copy, Debug, PartialEq, Eq, Structural)]
pub enum Overflow {
    /// Long lines continue on the next screen line.
    Wrap,
    /// The view scrolls to keep the cursor visible.
    Scroll,
}

/// The number `n` held within the range of `u16`.
pub open spec fn screen(n: nat) -> u16 {
    if n > u16::MAX {
        u16::MAX
    } else {
        n as u16
    }
}

/// `a - b`, or zero when `b` is the larger.
pub open spec fn less(a: u16, b: u16) -> u16 {
    if a > b {
        (a - b) as u16
    } else {
        0
    }
}

/// `a`, or `b` when `b` is the smaller.
pub open spec fn least(a: u16, b: u16) -> u16 {
    if a < b {
        a
    } else {
        b
    }
}

fn to_screen(n: usize) -> (r: u16)
    ensures
        r == screen(n as nat),
{
    if n > 65535 {
        65535
    } else {
        n as u16
    }
}

/// The text of a buffer and the screen position of its cursor.
#[derive(Debug)]
pub struct TextEditState {
    /// The text to draw.
    pub content: String,
    /// The cursor's display column.
    pub col: u16,
    /// The cursor's line.
    pub row: u16,
}

impl TextEditState {
    /// Takes the text and cursor position of `buffer`; positions past the
    /// range of `u16` are held at its largest value.
    pub fn new(buffer: &Buffer) -> (r: TextEditState)
        requires
            buffer.wf(),
        ensures
            r.content@ == buffer@.text,
            r.col == screen(column_of(buffer@.text, buffer@.cursor.offset as int) as nat),
            r.row == screen(breaks(buffer@.text, buffer@.cursor.offset as int)),
    {
        let cursor = buffer.cursor();
        let col = cursor.to_col(buffer.content());
        let row = cursor.row(buffer.content());
        TextEditState { content: buffer.to_string(), col: to_screen(col), row: to_screen(row) }
    }
}

/// A view of a buffer's text on a terminal.
#[derive(Debug)]
pub struct TextEditView {
    /// How long lines are shown.
    pub overflow: Overflow,
}

impl TextEditView {
    /// Creates a view that treats long lines as `overflow` says.
    pub fn new(overflow: Overflow) -> (r: TextEditView)
        ensures
            r.overflow == overflow,
    {
        TextEditView { overflow }
    }

    /// Returns the (vertical, horizontal) scroll offsets that keep the
    /// cursor of `state` within an area of `width` by `height` cells.
    pub fn scroll(&self, width: u16, height: u16, state: &TextEditState) -> (r: (u16, u16))
        requires
            width >= 1,
            height >= 1,
        ensures
            r == (less(state.row, (height - 1) as u16), less(state.col, (width - 1) as u16)),
    {
        let x = state.col.saturating_sub(width - 1);
        let y = state.row.saturating_sub(height - 1);
        (y, x)
    }

    /// Returns the screen cell, as (column, line), where the cursor of
    /// `state` is shown in an area at `x`, `y` of `width` by `height` cells.
    pub fn focus(&self, x: u16, y: u16, width: u16, height: u16, state: &TextEditState) -> (r: (
        u16,
        u16,
    ))
        requires
            width >= 1,
            height >= 1,
            x + width - 1 <= u16::MAX,
            y + height - 1 <= u16::MAX,
        ensures
            r == ((x + least(state.col, (width - 1) as u16)) as u16, (y + least(
                state.row,
                (height - 1) as u16,
            )) as u16),
    {
        let col = if state.col < width - 1 {
            state.col
        } else {
            width - 1
        };
        let row = if state.row < height - 1 {
            state.row
        } else {
            height - 1
        };
        (x + col, y + row)
    }
}

} // verus!
