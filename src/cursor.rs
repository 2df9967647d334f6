//! Cursor positions and the metrics that move them through a text.
//!
//! A metric is a rule for stepping to the next or previous position of
//! interest: a character, a character within the line, a line, the head or
//! tail of a word, or the start of a paragraph. Each rule is stated as a spec
//! function over the text, and the executable steps are proved against it.

use vstd::prelude::*;

use crate::buffer::Buf;
use crate::unicode::{is_whitespace, text_width, whitespace, width_of};

verus! {

/// A position in a text.
///
/// `offset` counts the characters before the position. `column` is the
/// display column that vertical motion tries to keep: horizontal motion clears
/// it, and vertical motion sets it from the column it started in.
#[derive(Clone, Copy, Debug, PartialEq, Eq, Structural)]
pub struct Cursor {
    pub offset: usize,
    pub column: Option<usize>,
}

/// A rule for stepping a cursor through a text.
#[derive(Clone, Copy, Debug, PartialEq, Eq, Structural)]
pub enum Metric {
    /// Every character boundary, crossing line breaks.
    Codepoint,
    /// Every character boundary within the current line.
    Bounded,
    /// The same display column on the adjacent line.
    Line,
    /// The first character of a word.
    Head,
    /// The last character of a word.
    Tail,
    /// The first character after a blank line.
    Paragraph,
}

/// The offset of the first character of the line that holds offset `o`.
pub open spec fn line_start(s: Seq<char>, o: int) -> int
    decreases o,
{
    if o <= 0 {
        0
    } else if s[o - 1] == '\n' {
        o
    } else {
        line_start(s, o - 1)
    }
}

/// The offset of the line break (or the end of the text) that closes the line
/// that holds offset `o`.
pub open spec fn line_end(s: Seq<char>, o: int) -> int
    decreases s.len() - o,
{
    if o >= s.len() {
        s.len() as int
    } else if s[o] == '\n' {
        o
    } else {
        line_end(s, o + 1)
    }
}

/// The number of line breaks among the first `n` characters.
pub open spec fn breaks(s: Seq<char>, n: int) -> nat
    decreases n,
{
    if n <= 0 {
        0
    } else {
        breaks(s, n - 1) + if s[n - 1] == '\n' { 1nat } else { 0nat }
    }
}

/// The display column of offset `o`: the width of the text between the start
/// of its line and `o`.
pub open spec fn column_of(s: Seq<char>, o: int) -> usize {
    text_width(s.subrange(line_start(s, o), o))
}

/// The column that vertical motion from `c` aims for.
pub open spec fn goal_column(s: Seq<char>, c: Cursor) -> usize {
    match c.column {
        Some(k) => k,
        None => column_of(s, c.offset as int),
    }
}

/// The display widths of the prefixes of `line`: entry `i` is the width of
/// its first `i + 1` characters.
pub open spec fn prefix_widths(line: Seq<char>) -> Seq<usize> {
    Seq::new(line.len(), |i: int| text_width(line.subrange(0, i + 1)))
}

/// The number of leading entries of `widths`, counted from `j`, that are at
/// most `column`.
pub open spec fn fit(widths: Seq<usize>, column: usize, j: int) -> int
    decreases widths.len() - j,
{
    if 0 <= j < widths.len() && widths[j] <= column {
        fit(widths, column, j + 1)
    } else {
        j
    }
}

/// The position on the line `start..end` that vertical motion from `c` lands
/// on: past every leading character whose prefix fits the goal column.
pub open spec fn land(s: Seq<char>, c: Cursor, start: int, end: int) -> Cursor {
    Cursor {
        offset: (start + fit(prefix_widths(s.subrange(start, end)), goal_column(s, c), 0)) as usize,
        column: Some(goal_column(s, c)),
    }
}

/// Which characters of `s` are whitespace.
pub open spec fn spaces(s: Seq<char>) -> Seq<bool> {
    Seq::new(s.len(), |i: int| whitespace(s[i]))
}

/// Whether a word starts at `p`, where `ws` tells which characters are
/// whitespace.
pub open spec fn word_head(ws: Seq<bool>, p: int) -> bool {
    &&& 0 <= p < ws.len()
    &&& !ws[p]
    &&& (p == 0 || ws[p - 1])
}

/// Whether a word ends at `p`, where `ws` tells which characters are
/// whitespace.
pub open spec fn word_tail(ws: Seq<bool>, p: int) -> bool {
    &&& 0 <= p < ws.len()
    &&& !ws[p]
    &&& (p + 1 == ws.len() || ws[p + 1])
}

/// Whether a paragraph starts at `p`: a character other than a line break
/// that follows two line breaks.
pub open spec fn is_paragraph(s: Seq<char>, p: int) -> bool {
    &&& 2 <= p < s.len()
    &&& s[p] != '\n'
    &&& s[p - 1] == '\n'
    &&& s[p - 2] == '\n'
}

/// Whether `p` is a position that metric `m` stops at when it searches text
/// `s`, where `ws` tells which characters are whitespace.
pub open spec fn is_stop(m: Metric, s: Seq<char>, ws: Seq<bool>, p: int) -> bool {
    match m {
        Metric::Head => word_head(ws, p),
        Metric::Tail => word_tail(ws, p),
        Metric::Paragraph => is_paragraph(s, p),
        _ => 0 <= p < s.len(),
    }
}

/// The first stop of `m` at or after `p`.
pub open spec fn scan_forward(m: Metric, s: Seq<char>, ws: Seq<bool>, p: int) -> Option<int>
    decreases s.len() - p,
{
    if p < 0 || p >= s.len() {
        None
    } else if is_stop(m, s, ws, p) {
        Some(p)
    } else {
        scan_forward(m, s, ws, p + 1)
    }
}

/// The last stop of `m` at or before `p`.
pub open spec fn scan_backward(m: Metric, s: Seq<char>, ws: Seq<bool>, p: int) -> Option<int>
    decreases p + 1,
{
    if p < 0 || p >= s.len() {
        None
    } else if is_stop(m, s, ws, p) {
        Some(p)
    } else {
        scan_backward(m, s, ws, p - 1)
    }
}

/// A cursor at `p` with no column to keep.
pub open spec fn at(p: int) -> Cursor {
    Cursor { offset: p as usize, column: None }
}

/// The next position after `c` under metric `m`, if there is one.
pub open spec fn next_spec(m: Metric, s: Seq<char>, c: Cursor) -> Option<Cursor> {
    let o = c.offset as int;
    match m {
        Metric::Codepoint => if o < s.len() {
            Some(at(o + 1))
        } else {
            None
        },
        Metric::Bounded => if o < s.len() && s[o] != '\n' {
            Some(at(o + 1))
        } else {
            None
        },
        Metric::Line => {
            let e = line_end(s, o);
            if e >= s.len() {
                None
            } else {
                Some(land(s, c, e + 1, line_end(s, e + 1)))
            }
        },
        _ => match scan_forward(m, s, spaces(s), o + 1) {
            Some(p) => Some(at(p)),
            None => None,
        },
    }
}

/// The previous position before `c` under metric `m`, if there is one.
pub open spec fn prev_spec(m: Metric, s: Seq<char>, c: Cursor) -> Option<Cursor> {
    let o = c.offset as int;
    match m {
        Metric::Codepoint => if o > 0 {
            Some(at(o - 1))
        } else {
            None
        },
        Metric::Bounded => if o > 0 && s[o - 1] != '\n' {
            Some(at(o - 1))
        } else {
            None
        },
        Metric::Line => {
            let b = line_start(s, o);
            if b <= 0 {
                None
            } else {
                Some(land(s, c, line_start(s, b - 1), b - 1))
            }
        },
        _ => match scan_backward(m, s, spaces(s), o - 1) {
            Some(p) => Some(at(p)),
            None => None,
        },
    }
}

/// Each step of `line_end` leaves the characters it passes free of line breaks.
pub(crate) proof fn lemma_line_end(s: Seq<char>, o: int)
    requires
        0 <= o <= s.len(),
    ensures
        o <= line_end(s, o) <= s.len(),
        line_end(s, o) < s.len() ==> s[line_end(s, o)] == '\n',
        forall|i: int| o <= i < line_end(s, o) ==> s[i] != '\n',
    decreases s.len() - o,
{
    if o < s.len() && s[o] != '\n' {
        lemma_line_end(s, o + 1);
    }
}

/// `line_start` lands on the start of a line, passing no line break.
pub(crate) proof fn lemma_line_start(s: Seq<char>, o: int)
    requires
        0 <= o <= s.len(),
    ensures
        0 <= line_start(s, o) <= o,
        line_start(s, o) > 0 ==> s[line_start(s, o) - 1] == '\n',
        forall|i: int| line_start(s, o) <= i < o ==> s[i] != '\n',
    decreases o,
{
    if o > 0 && s[o - 1] != '\n' {
        lemma_line_start(s, o - 1);
    }
}

/// A forward search stops within the text, at or after where it began.
proof fn lemma_scan_forward(m: Metric, s: Seq<char>, ws: Seq<bool>, p: int)
    ensures
        scan_forward(m, s, ws, p) matches Some(q) ==> p <= q < s.len(),
    decreases s.len() - p,
{
    if 0 <= p < s.len() && !is_stop(m, s, ws, p) {
        lemma_scan_forward(m, s, ws, p + 1);
    }
}

/// A backward search stops within the text, at or before where it began.
proof fn lemma_scan_backward(m: Metric, s: Seq<char>, ws: Seq<bool>, p: int)
    ensures
        scan_backward(m, s, ws, p) matches Some(q) ==> 0 <= q <= p,
    decreases p + 1,
{
    if 0 <= p < s.len() && !is_stop(m, s, ws, p) {
        lemma_scan_backward(m, s, ws, p - 1);
    }
}

/// Vertical motion never lands past the end of the line it moves to.
proof fn lemma_fit(widths: Seq<usize>, column: usize, j: int)
    requires
        0 <= j <= widths.len(),
    ensures
        j <= fit(widths, column, j) <= widths.len(),
    decreases widths.len() - j,
{
    if j < widths.len() && widths[j] <= column {
        lemma_fit(widths, column, j + 1);
    }
}

/// Every metric steps to a position within the text.
pub proof fn lemma_steps_within(m: Metric, s: Seq<char>, c: Cursor)
    requires
        c.offset <= s.len() <= usize::MAX,
    ensures
        next_spec(m, s, c) matches Some(d) ==> c.offset < d.offset <= s.len(),
        prev_spec(m, s, c) matches Some(d) ==> d.offset < c.offset,
{
    let o = c.offset as int;
    lemma_scan_forward(m, s, spaces(s), o + 1);
    lemma_scan_backward(m, s, spaces(s), o - 1);
    lemma_line_end(s, o);
    lemma_line_start(s, o);
    if m == Metric::Line {
        let e = line_end(s, o);
        if e < s.len() {
            lemma_line_end(s, e + 1);
            lemma_fit(prefix_widths(s.subrange(e + 1, line_end(s, e + 1))), goal_column(s, c), 0);
        }
        let b = line_start(s, o);
        if b > 0 {
            lemma_line_start(s, b - 1);
            lemma_fit(prefix_widths(s.subrange(line_start(s, b - 1), b - 1)), goal_column(s, c), 0);
        }
    }
}

/// One character forward and one back is the way home: stepping back from
/// the character after `c` reaches `c`'s offset, and `c` itself when it keeps
/// no column.
pub proof fn lemma_codepoint_inverse(s: Seq<char>, c: Cursor)
    requires
        c.offset <= s.len() <= usize::MAX,
        next_spec(Metric::Codepoint, s, c) is Some,
    ensures
        prev_spec(Metric::Codepoint, s, next_spec(Metric::Codepoint, s, c)->0) == Some(
            at(c.offset as int),
        ),
        c.column is None ==> prev_spec(
            Metric::Codepoint,
            s,
            next_spec(Metric::Codepoint, s, c)->0,
        ) == Some(c),
{
}

/// One character back and one forward is the way home too.
pub proof fn lemma_codepoint_inverse_back(s: Seq<char>, c: Cursor)
    requires
        c.offset <= s.len() <= usize::MAX,
        prev_spec(Metric::Codepoint, s, c) is Some,
    ensures
        next_spec(Metric::Codepoint, s, prev_spec(Metric::Codepoint, s, c)->0) == Some(
            at(c.offset as int),
        ),
{
}

/// Returns the offset of the start of the line that holds `o`.
pub(crate) fn find_line_start(buf: &Buf, o: usize) -> (r: usize)
    requires
        o <= buf@.len(),
    ensures
        r == line_start(buf@, o as int),
        r <= o,
{
    let mut i: usize = o;
    while i > 0 && buf.char_at(i - 1) != '\n'
        invariant
            i <= o <= buf@.len(),
            line_start(buf@, i as int) == line_start(buf@, o as int),
        decreases i,
    {
        i = i - 1;
    }
    i
}

/// Returns the offset of the line break, or the end of the text, that closes
/// the line that holds `o`.
pub(crate) fn find_line_end(buf: &Buf, o: usize) -> (r: usize)
    requires
        o <= buf@.len(),
    ensures
        r == line_end(buf@, o as int),
        o <= r <= buf@.len(),
{
    let mut i: usize = o;
    while i < buf.len() && buf.char_at(i) != '\n'
        invariant
            o <= i <= buf@.len(),
            line_end(buf@, i as int) == line_end(buf@, o as int),
        decreases buf@.len() - i,
    {
        i = i + 1;
    }
    i
}

/// Returns how many leading entries of `widths` are at most `column`.
pub fn fit_widths(widths: &Vec<usize>, column: usize) -> (r: usize)
    ensures
        r == fit(widths@, column, 0),
        r <= widths@.len(),
{
    let mut j: usize = 0;
    while j < widths.len() && widths[j] <= column
        invariant
            j <= widths@.len(),
            fit(widths@, column, 0) == fit(widths@, column, j as int),
        decreases widths@.len() - j,
    {
        j = j + 1;
    }
    j
}

/// Returns how many leading characters of the line `start..end` fit within
/// `column` display columns.
fn fit_line(buf: &Buf, start: usize, end: usize, column: usize) -> (r: usize)
    requires
        start <= end <= buf@.len(),
    ensures
        r == fit(prefix_widths(buf@.subrange(start as int, end as int)), column, 0),
        r <= end - start,
{
    let ghost line = buf@.subrange(start as int, end as int);
    let mut widths: Vec<usize> = Vec::new();
    let mut j: usize = 0;
    while j < end - start
        invariant
            start <= end <= buf@.len(),
            j <= end - start,
            line == buf@.subrange(start as int, end as int),
            widths@ == prefix_widths(line).subrange(0, j as int),
        decreases end - start - j,
    {
        assert(line.subrange(0, j + 1) =~= buf@.subrange(start as int, start + j + 1));
        widths.push(width_of(buf.chars(), start, start + j + 1));
        j = j + 1;
        assert(widths@ =~= prefix_widths(line).subrange(0, j as int));
    }
    assert(widths@ =~= prefix_widths(line));
    fit_widths(&widths, column)
}

/// Returns which characters of `buf` are whitespace.
pub(crate) fn space_mask(buf: &Buf) -> (r: Vec<bool>)
    ensures
        r@ == spaces(buf@),
{
    let mut ws: Vec<bool> = Vec::new();
    let mut i: usize = 0;
    while i < buf.len()
        invariant
            i <= buf@.len(),
            ws@ == spaces(buf@).subrange(0, i as int),
        decreases buf@.len() - i,
    {
        ws.push(is_whitespace(buf.char_at(i)));
        i = i + 1;
        assert(ws@ =~= spaces(buf@).subrange(0, i as int));
    }
    assert(ws@ =~= spaces(buf@));
    ws
}

/// Returns whether `p` is a stop of metric `m` in `buf`, where `ws` tells
/// which characters are whitespace.
fn stops_at(buf: &Buf, ws: &Vec<bool>, m: Metric, p: usize) -> (r: bool)
    requires
        ws@.len() == buf@.len(),
    ensures
        r == is_stop(m, buf@, ws@, p as int),
{
    let n = buf.len();
    match m {
        Metric::Head => p < n && !ws[p] && (p == 0 || ws[p - 1]),
        Metric::Tail => p < n && !ws[p] && (p + 1 == n || ws[p + 1]),
        Metric::Paragraph => 2 <= p && p < n && buf.char_at(p) != '\n' && buf.char_at(p - 1)
            == '\n' && buf.char_at(p - 2) == '\n',
        _ => p < n,
    }
}

/// Returns the first stop of `m` in `buf` at or after `p`, where `ws` tells
/// which characters are whitespace.
pub fn search_forward(buf: &Buf, ws: &Vec<bool>, m: Metric, p: usize) -> (r: Option<usize>)
    requires
        ws@.len() == buf@.len(),
    ensures
        r matches Some(q) ==> scan_forward(m, buf@, ws@, p as int) == Some(q as int),
        r is None ==> scan_forward(m, buf@, ws@, p as int) is None,
{
    let mut i: usize = p;
    while i < buf.len()
        invariant
            p <= i,
            ws@.len() == buf@.len(),
            scan_forward(m, buf@, ws@, p as int) == scan_forward(m, buf@, ws@, i as int),
        decreases buf@.len() - i,
    {
        if stops_at(buf, ws, m, i) {
            return Some(i);
        }
        i = i + 1;
    }
    None
}

/// Returns the last stop of `m` in `buf` before `p`, where `ws` tells which
/// characters are whitespace.
pub fn search_backward(buf: &Buf, ws: &Vec<bool>, m: Metric, p: usize) -> (r: Option<usize>)
    requires
        p <= buf@.len(),
        ws@.len() == buf@.len(),
    ensures
        r matches Some(q) ==> scan_backward(m, buf@, ws@, p - 1) == Some(q as int),
        r is None ==> scan_backward(m, buf@, ws@, p - 1) is None,
{
    let mut i: usize = p;
    while i > 0
        invariant
            i <= p <= buf@.len(),
            ws@.len() == buf@.len(),
            scan_backward(m, buf@, ws@, p - 1) == scan_backward(m, buf@, ws@, i - 1),
        decreases i,
    {
        if stops_at(buf, ws, m, i - 1) {
            return Some(i - 1);
        }
        i = i - 1;
    }
    None
}

impl Cursor {
    /// Creates a cursor at `offset`, with no column to keep.
    pub fn new(offset: usize) -> (r: Cursor)
        ensures
            r == at(offset as int),
    {
        Cursor { offset, column: None }
    }

    /// Creates a cursor at the start of a text.
    pub fn origin() -> (r: Cursor)
        ensures
            r == at(0),
    {
        Cursor { offset: 0, column: None }
    }

    /// Creates a cursor at the end of `buf`.
    pub fn eof(buf: &Buf) -> (r: Cursor)
        ensures
            r == at(buf@.len() as int),
    {
        Cursor { offset: buf.len(), column: None }
    }

    /// Returns the number of characters before this cursor.
    pub fn offset(self) -> (r: usize)
        ensures
            r == self.offset,
    {
        self.offset
    }

    /// Returns the number of characters between the start of the line and
    /// this cursor.
    pub fn col(self, buf: &Buf) -> (r: usize)
        requires
            self.offset <= buf@.len(),
        ensures
            r == self.offset - line_start(buf@, self.offset as int),
    {
        proof {
            lemma_line_start(buf@, self.offset as int);
        }
        self.offset - find_line_start(buf, self.offset)
    }

    /// Returns the display column of this cursor.
    pub fn to_col(self, buf: &Buf) -> (r: usize)
        requires
            self.offset <= buf@.len(),
        ensures
            r == column_of(buf@, self.offset as int),
    {
        proof {
            lemma_line_start(buf@, self.offset as int);
        }
        let start = find_line_start(buf, self.offset);
        width_of(buf.chars(), start, self.offset)
    }

    /// Returns the line that holds this cursor, counted from zero.
    pub fn row(self, buf: &Buf) -> (r: usize)
        requires
            self.offset <= buf@.len(),
        ensures
            r == breaks(buf@, self.offset as int),
    {
        let mut n: usize = 0;
        let mut i: usize = 0;
        while i < self.offset
            invariant
                i <= self.offset <= buf@.len(),
                n == breaks(buf@, i as int),
                n <= i,
            decreases self.offset - i,
        {
            if buf.char_at(i) == '\n' {
                n = n + 1;
            }
            i = i + 1;
        }
        n
    }

    /// Returns the next position under `metric`, or `None` when there is none.
    pub fn forward(self, buf: &Buf, metric: Metric) -> (r: Option<Cursor>)
        requires
            self.offset <= buf@.len(),
        ensures
            r == next_spec(metric, buf@, self),
            r matches Some(d) ==> d.offset <= buf@.len(),
    {
        let n = buf.len();
        proof {
            lemma_steps_within(metric, buf@, self);
        }
        let o = self.offset;
        match metric {
            Metric::Codepoint => if o < n {
                Some(Cursor::new(o + 1))
            } else {
                None
            },
            Metric::Bounded => if o < n && buf.char_at(o) != '\n' {
                Some(Cursor::new(o + 1))
            } else {
                None
            },
            Metric::Line => {
                let e = find_line_end(buf, o);
                if e >= n {
                    None
                } else {
                    proof {
                        lemma_line_end(buf@, o as int);
                        lemma_line_end(buf@, e + 1);
                    }
                    let column = self.goal(buf);
                    let end = find_line_end(buf, e + 1);
                    let j = fit_line(buf, e + 1, end, column);
                    Some(Cursor { offset: e + 1 + j, column: Some(column) })
                }
            },
            _ => if o >= n {
                None
            } else {
                let ws = space_mask(buf);
                match search_forward(buf, &ws, metric, o + 1) {
                    Some(p) => Some(Cursor::new(p)),
                    None => None,
                }
            },
        }
    }

    /// Returns the previous position under `metric`, or `None` when there is
    /// none.
    pub fn backward(self, buf: &Buf, metric: Metric) -> (r: Option<Cursor>)
        requires
            self.offset <= buf@.len(),
        ensures
            r == prev_spec(metric, buf@, self),
            r matches Some(d) ==> d.offset <= buf@.len(),
    {
        // The length of a text in memory fits a `usize`, which the proof
        // below relies on.
        let _n = buf.len();
        proof {
            lemma_steps_within(metric, buf@, self);
        }
        let o = self.offset;
        match metric {
            Metric::Codepoint => if o > 0 {
                Some(Cursor::new(o - 1))
            } else {
                None
            },
            Metric::Bounded => if o > 0 && buf.char_at(o - 1) != '\n' {
                Some(Cursor::new(o - 1))
            } else {
                None
            },
            Metric::Line => {
                let b = find_line_start(buf, o);
                if b == 0 {
                    None
                } else {
                    proof {
                        lemma_line_start(buf@, o as int);
                        lemma_line_start(buf@, b - 1);
                    }
                    let column = self.goal(buf);
                    let start = find_line_start(buf, b - 1);
                    let j = fit_line(buf, start, b - 1, column);
                    Some(Cursor { offset: start + j, column: Some(column) })
                }
            },
            _ => {
                let ws = space_mask(buf);
                match search_backward(buf, &ws, metric, o) {
                    Some(p) => Some(Cursor::new(p)),
                    None => None,
                }
            },
        }
    }

    /// Returns a walk through `buffer` under `metric`, anchored at this
    /// cursor.
    pub fn iter<'a>(self, buffer: &'a Buf, metric: Metric) -> (r: CursorIterator<'a>)
        requires
            self.offset <= buffer@.len(),
        ensures
            r@ == (Walk { anchor: self, text: buffer@, metric }),
            r.wf(),
    {
        CursorIterator::new(self, buffer, metric)
    }

    /// Returns the column that vertical motion from this cursor aims for.
    fn goal(self, buf: &Buf) -> (r: usize)
        requires
            self.offset <= buf@.len(),
        ensures
            r == goal_column(buf@, self),
    {
        match self.column {
            Some(k) => k,
            None => self.to_col(buf),
        }
    }
}

/// A walk seen as values: where it stands, over which text, by which rule.
pub struct Walk {
    pub anchor: Cursor,
    pub text: Seq<char>,
    pub metric: Metric,
}

/// A walk through a text under one metric, forward with `next` and backward
/// with `next_back`, both from the same moving anchor. It never wraps: at
/// either end it returns `None` and stays put.
pub struct CursorIterator<'a> {
    anchor: Cursor,
    buffer: &'a Buf,
    metric: Metric,
}

impl<'a> View for CursorIterator<'a> {
    type V = Walk;

    closed spec fn view(&self) -> Walk {
        Walk { anchor: self.anchor, text: self.buffer@, metric: self.metric }
    }
}

impl<'a> CursorIterator<'a> {
    /// The anchor lies within the text.
    pub open spec fn wf(&self) -> bool {
        self@.anchor.offset <= self@.text.len()
    }

    /// Creates a walk through `buffer` under `metric`, anchored at `anchor`.
    pub fn new(anchor: Cursor, buffer: &'a Buf, metric: Metric) -> (r: CursorIterator<'a>)
        requires
            anchor.offset <= buffer@.len(),
        ensures
            r@ == (Walk { anchor, text: buffer@, metric }),
            r.wf(),
    {
        CursorIterator { anchor, buffer, metric }
    }

    /// Returns where the walk stands.
    pub fn at(&self) -> (r: Cursor)
        ensures
            r == self@.anchor,
    {
        self.anchor
    }

    /// Steps forward; returns the new position, or `None` at the end.
    pub fn next(&mut self) -> (r: Option<Cursor>)
        requires
            old(self).wf(),
        ensures
            r == next_spec(old(self)@.metric, old(self)@.text, old(self)@.anchor),
            final(self)@ == (Walk {
                anchor: match r {
                    Some(c) => c,
                    None => old(self)@.anchor,
                },
                ..old(self)@
            }),
            final(self).wf(),
    {
        let r = self.anchor.forward(self.buffer, self.metric);
        if let Some(c) = r {
            self.anchor = c;
        }
        r
    }

    /// Steps backward; returns the new position, or `None` at the start.
    pub fn next_back(&mut self) -> (r: Option<Cursor>)
        requires
            old(self).wf(),
        ensures
            r == prev_spec(old(self)@.metric, old(self)@.text, old(self)@.anchor),
            final(self)@ == (Walk {
                anchor: match r {
                    Some(c) => c,
                    None => old(self)@.anchor,
                },
                ..old(self)@
            }),
            final(self).wf(),
    {
        let r = self.anchor.backward(self.buffer, self.metric);
        if let Some(c) = r {
            self.anchor = c;
        }
        r
    }
}

} // verus!
