//! The text buffer: a sequence of Unicode scalar values, edited in place.
//!
//! Offsets count characters, so every offset in `0..=len` lies on a
//! character boundary and no edit can split one.

use core::ops::Bound;

use vstd::prelude::*;

use crate::cursor::{
    at, breaks, line_end, next_spec, prev_spec, Cursor, CursorIterator, Metric,
    Walk,
};
use crate::unicode::{chars_of, string_of};

verus! {

/// Declares `core::ops::Bound` to Verus, which reads its three variants from
/// the definition in `core`.
#[verifier::external_type_specification]
#[verifier::reject_recursive_types(T)]
pub struct ExBound<T>(Bound<T>);

/// The text with `start..end` replaced by `text`.
pub open spec fn splice(s: Seq<char>, start: int, end: int, text: Seq<char>) -> Seq<char> {
    s.subrange(0, start) + text + s.subrange(end, s.len() as int)
}

/// The offset of the first line break after `k` of them have been passed:
/// where line `k` starts.
pub open spec fn row_start(s: Seq<char>, k: nat) -> int
    decreases k,
{
    if k == 0 {
        0
    } else {
        line_end(s, row_start(s, (k - 1) as nat)) + 1
    }
}

/// The number of lines: one more than the number of line breaks.
pub open spec fn row_count(s: Seq<char>) -> nat {
    breaks(s, s.len() as int) + 1
}

/// The text of line `k`, without its line break.
pub open spec fn row_text(s: Seq<char>, k: nat) -> Seq<char> {
    s.subrange(row_start(s, k), line_end(s, row_start(s, k)))
}

/// A stretch free of line breaks adds none to the count.
proof fn lemma_breaks_flat(s: Seq<char>, a: int, b: int)
    requires
        0 <= a <= b <= s.len(),
        forall|i: int| a <= i < b ==> s[i] != '\n',
    ensures
        breaks(s, b) == breaks(s, a),
    decreases b - a,
{
    if b > a {
        lemma_breaks_flat(s, a, b - 1);
    }
}

/// The count of line breaks never exceeds the number of characters counted.
proof fn lemma_breaks_upto(s: Seq<char>, n: int)
    requires
        0 <= n <= s.len(),
    ensures
        breaks(s, n) <= n,
    decreases n,
{
    if n > 0 {
        lemma_breaks_upto(s, n - 1);
    }
}

/// Every line that exists starts within the text, after exactly `k` breaks.
proof fn lemma_row_start(s: Seq<char>, k: nat)
    requires
        k < row_count(s),
    ensures
        0 <= row_start(s, k) <= line_end(s, row_start(s, k)) <= s.len(),
        breaks(s, row_start(s, k)) == k,
    decreases k,
{
    if k > 0 {
        let a = row_start(s, (k - 1) as nat);
        lemma_row_start(s, (k - 1) as nat);
        crate::cursor::lemma_line_end(s, a);
        let e = line_end(s, a);
        lemma_breaks_flat(s, a, e);
        if e == s.len() {
            assert(false);
        }
        assert(breaks(s, e + 1) == breaks(s, e) + 1);
    }
    crate::cursor::lemma_line_end(s, row_start(s, k));
}

/// A line of text, without its line break.
#[derive(Debug)]
pub struct Row {
    chars: Vec<char>,
}

impl View for Row {
    type V = Seq<char>;

    closed spec fn view(&self) -> Seq<char> {
        self.chars@
    }
}

impl Row {
    /// Returns the number of characters in the row.
    pub fn len(&self) -> (r: usize)
        ensures
            r == self@.len(),
    {
        self.chars.len()
    }

    /// Returns the character at `at`, or `None` past the end of the row.
    pub fn get(&self, at: usize) -> (r: Option<char>)
        ensures
            r == if at < self@.len() {
                Some(self@[at as int])
            } else {
                None
            },
    {
        if at < self.chars.len() {
            Some(self.chars[at])
        } else {
            None
        }
    }

    /// Fills the row with `padding` until it holds at least `chars`
    /// characters.
    pub fn pad(&mut self, chars: usize, padding: char)
        ensures
            final(self)@ == if chars > old(self)@.len() {
                old(self)@ + Seq::new((chars - old(self)@.len()) as nat, |i: int| padding)
            } else {
                old(self)@
            },
    {
        let ghost start = self.chars@;
        let n = self.chars.len();
        while self.chars.len() < chars
            invariant
                n == start.len(),
                n <= self.chars@.len(),
                n < chars ==> self.chars@.len() <= chars,
                chars <= n ==> self.chars@.len() == n,
                self.chars@ == start + Seq::new((self.chars@.len() - n) as nat, |i: int| padding),
            decreases chars - self.chars@.len(),
        {
            self.chars.push(padding);
            assert(self.chars@ =~= start + Seq::new((self.chars@.len() - n) as nat, |i: int| padding));
        }
        assert(chars > n ==> self.chars@.len() == chars);
        if chars <= n {
            assert(start + Seq::new(0, |i: int| padding) =~= start);
        }
    }

    /// Returns the row as a string.
    pub fn to_string(&self) -> (r: String)
        ensures
            r@ == self@,
    {
        string_of(self.chars.as_slice())
    }

    /// Inserts `ch` at `position`, filling the row with spaces up to
    /// `position` first when it is past the end.
    pub fn insert(&mut self, position: usize, ch: char)
        ensures
            final(self)@ == (if position > old(self)@.len() {
                old(self)@ + Seq::new((position - old(self)@.len()) as nat, |i: int| ' ')
            } else {
                old(self)@
            }).insert(position as int, ch),
    {
        if position > self.len() {
            self.pad(position, ' ');
        }
        self.chars.insert(position, ch);
    }
}

/// The offset where a range that starts at `b` starts, in a text of `n`
/// characters.
pub open spec fn start_index(b: Bound<Cursor>, n: int) -> int {
    match b {
        Bound::Included(c) => c.offset as int,
        Bound::Excluded(c) => if c.offset < n {
            c.offset + 1
        } else {
            n
        },
        Bound::Unbounded => 0,
    }
}

/// The offset where a range that ends at `b` ends (exclusive), in a text of
/// `n` characters.
pub open spec fn end_index(b: Bound<Cursor>, n: int) -> int {
    match b {
        Bound::Included(c) => if c.offset < n {
            c.offset + 1
        } else {
            n
        },
        Bound::Excluded(c) => c.offset as int,
        Bound::Unbounded => n,
    }
}

/// Whether a bound names an offset within a text of `n` characters.
pub open spec fn bound_within(b: Bound<Cursor>, n: int) -> bool {
    match b {
        Bound::Included(c) => c.offset <= n,
        Bound::Excluded(c) => c.offset <= n,
        Bound::Unbounded => true,
    }
}

/// Whether `range` names a stretch of a text of `n` characters.
pub open spec fn range_within(range: (Bound<Cursor>, Bound<Cursor>), n: int) -> bool {
    &&& bound_within(range.0, n)
    &&& bound_within(range.1, n)
    &&& start_index(range.0, n) <= end_index(range.1, n)
}

fn start_offset(b: Bound<Cursor>, n: usize) -> (r: usize)
    requires
        bound_within(b, n as int),
    ensures
        r == start_index(b, n as int),
{
    match b {
        Bound::Included(c) => c.offset,
        Bound::Excluded(c) => if c.offset < n {
            c.offset + 1
        } else {
            n
        },
        Bound::Unbounded => 0,
    }
}

fn end_offset(b: Bound<Cursor>, n: usize) -> (r: usize)
    requires
        bound_within(b, n as int),
    ensures
        r == end_index(b, n as int),
{
    match b {
        Bound::Included(c) => if c.offset < n {
            c.offset + 1
        } else {
            n
        },
        Bound::Excluded(c) => c.offset,
        Bound::Unbounded => n,
    }
}

/// The editable text of a buffer.
#[derive(Debug)]
pub struct Buf {
    chars: Vec<char>,
}

impl View for Buf {
    type V = Seq<char>;

    closed spec fn view(&self) -> Seq<char> {
        self.chars@
    }
}

impl Buf {
    /// Creates an empty buffer.
    pub fn new() -> (r: Buf)
        ensures
            r@ == Seq::<char>::empty(),
    {
        Buf { chars: Vec::new() }
    }

    /// Creates a buffer that holds `text`.
    pub fn from(text: &str) -> (r: Buf)
        ensures
            r@ == text@,
    {
        Buf { chars: chars_of(text) }
    }

    /// Returns the number of characters in the buffer.
    pub fn len(&self) -> (r: usize)
        ensures
            r == self@.len(),
    {
        self.chars.len()
    }

    /// Returns whether the buffer holds no text.
    pub fn is_empty(&self) -> (r: bool)
        ensures
            r == (self@.len() == 0),
    {
        self.chars.len() == 0
    }

    /// Returns the position at the start of the buffer.
    pub fn origin(&self) -> (r: Cursor)
        ensures
            r == crate::cursor::at(0),
    {
        Cursor::origin()
    }

    /// Returns the character at offset `i`.
    pub fn char_at(&self, i: usize) -> (c: char)
        requires
            i < self@.len(),
        ensures
            c == self@[i as int],
    {
        self.chars[i]
    }

    /// Returns the underlying characters.
    pub fn chars(&self) -> (r: &Vec<char>)
        ensures
            r@ == self@,
    {
        &self.chars
    }

    /// Returns the buffer's text as a string.
    pub fn to_string(&self) -> (r: String)
        ensures
            r@ == self@,
    {
        string_of(self.chars.as_slice())
    }

    /// Returns the character at `point`, or `None` past the end.
    pub fn get(&self, point: Cursor) -> (r: Option<char>)
        ensures
            r == if point.offset < self@.len() {
                Some(self@[point.offset as int])
            } else {
                None
            },
    {
        if point.offset < self.chars.len() {
            Some(self.chars[point.offset])
        } else {
            None
        }
    }

    /// Returns the number of line breaks in the buffer.
    fn breaks(&self) -> (r: usize)
        ensures
            r == breaks(self@, self@.len() as int),
    {
        proof {
            lemma_breaks_upto(self@, self@.len() as int);
        }
        let end = Cursor { offset: self.chars.len(), column: None };
        end.row(self)
    }

    /// Returns the number of lines in the buffer.
    pub fn rows(&self) -> (r: usize)
        requires
            self@.len() < usize::MAX,
        ensures
            r == row_count(self@),
    {
        proof {
            lemma_breaks_upto(self@, self@.len() as int);
        }
        self.breaks() + 1
    }

    /// Returns the offset where line `k` starts.
    fn row_start(&self, k: usize) -> (r: usize)
        requires
            k < row_count(self@),
        ensures
            r == row_start(self@, k as nat),
            r <= line_end(self@, r as int) <= self@.len(),
    {
        let n = self.len();
        let mut start: usize = 0;
        let mut i: usize = 0;
        while i < k
            invariant
                n == self@.len(),
                i <= k < row_count(self@),
                start == row_start(self@, i as nat),
            decreases k - i,
        {
            proof {
                lemma_row_start(self@, (i + 1) as nat);
            }
            let e = crate::cursor::find_line_end(self, start);
            start = e + 1;
            i = i + 1;
        }
        proof {
            lemma_row_start(self@, k as nat);
        }
        start
    }

    /// Returns the text of line `k`.
    fn row_at(&self, k: usize) -> (r: Row)
        requires
            k < row_count(self@),
        ensures
            r@ == row_text(self@, k as nat),
    {
        let start = self.row_start(k);
        let end = crate::cursor::find_line_end(self, start);
        let mut chars: Vec<char> = Vec::new();
        let mut i: usize = start;
        while i < end
            invariant
                start <= i <= end <= self@.len(),
                chars@ == self@.subrange(start as int, i as int),
            decreases end - i,
        {
            chars.push(self.chars[i]);
            i = i + 1;
            assert(chars@ =~= self@.subrange(start as int, i as int));
        }
        Row { chars }
    }

    /// Returns the number of characters in line `line`, without its break.
    pub fn cols_at(&self, line: usize) -> (r: usize)
        requires
            line < row_count(self@),
        ensures
            r == row_text(self@, line as nat).len(),
    {
        let start = self.row_start(line);
        crate::cursor::find_line_end(self, start) - start
    }

    /// Returns line `idx`, or `None` when the buffer has no such line.
    pub fn line(&self, idx: usize) -> (r: Option<Row>)
        ensures
            idx < row_count(self@) ==> (r matches Some(row) && row@ == row_text(self@, idx as nat)),
            idx >= row_count(self@) ==> r is None,
    {
        if idx <= self.breaks() {
            Some(self.row_at(idx))
        } else {
            None
        }
    }

    /// Returns every line of the buffer, in order, without line breaks.
    pub fn lines(&self) -> (r: Vec<Row>)
        ensures
            r@.len() == row_count(self@),
            forall|k: int| 0 <= k < r@.len() ==> #[trigger] r@[k]@ == row_text(self@, k as nat),
    {
        let n = self.breaks();
        let mut rows: Vec<Row> = Vec::new();
        let mut k: usize = 0;
        while k < n
            invariant
                n == breaks(self@, self@.len() as int),
                k <= n,
                rows@.len() == k,
                forall|j: int| 0 <= j < k ==> #[trigger] rows@[j]@ == row_text(self@, j as nat),
            decreases n - k,
        {
            rows.push(self.row_at(k));
            k = k + 1;
        }
        rows.push(self.row_at(n));
        rows
    }

    /// Inserts `ch` at `point`.
    pub fn insert(&mut self, point: Cursor, ch: char)
        requires
            point.offset <= old(self)@.len(),
        ensures
            final(self)@ == old(self)@.insert(point.offset as int, ch),
    {
        self.chars.insert(point.offset, ch);
    }

    /// Replaces the characters `start..end` with `text`.
    fn splice(&mut self, start: usize, end: usize, text: &Vec<char>)
        requires
            start <= end <= old(self)@.len(),
        ensures
            final(self)@ == splice(old(self)@, start as int, end as int, text@),
    {
        let mut out: Vec<char> = Vec::new();
        let mut i: usize = 0;
        while i < start
            invariant
                i <= start <= end <= self@.len(),
                out@ == self@.subrange(0, i as int),
            decreases start - i,
        {
            out.push(self.chars[i]);
            i = i + 1;
            assert(out@ =~= self@.subrange(0, i as int));
        }
        let mut j: usize = 0;
        while j < text.len()
            invariant
                start <= end <= self@.len(),
                j <= text@.len(),
                out@ == self@.subrange(0, start as int) + text@.subrange(0, j as int),
            decreases text@.len() - j,
        {
            out.push(text[j]);
            j = j + 1;
            assert(out@ =~= self@.subrange(0, start as int) + text@.subrange(0, j as int));
        }
        assert(text@.subrange(0, text@.len() as int) =~= text@);
        let mut k: usize = end;
        while k < self.chars.len()
            invariant
                start <= end <= k <= self@.len(),
                out@ == self@.subrange(0, start as int) + text@ + self@.subrange(
                    end as int,
                    k as int,
                ),
            decreases self@.len() - k,
        {
            out.push(self.chars[k]);
            k = k + 1;
            assert(out@ =~= self@.subrange(0, start as int) + text@ + self@.subrange(
                end as int,
                k as int,
            ));
        }
        self.chars = out;
    }

    /// Replaces the text in `range` with `text`; the two may differ in
    /// length.
    pub fn edit(&mut self, range: (Bound<Cursor>, Bound<Cursor>), text: &str)
        requires
            range_within(range, old(self)@.len() as int),
        ensures
            final(self)@ == splice(
                old(self)@,
                start_index(range.0, old(self)@.len() as int),
                end_index(range.1, old(self)@.len() as int),
                text@,
            ),
    {
        let n = self.chars.len();
        let start = start_offset(range.0, n);
        let end = end_offset(range.1, n);
        let chars = chars_of(text);
        self.splice(start, end, &chars);
    }

    /// Removes the text in `range`.
    pub fn delete(&mut self, range: (Bound<Cursor>, Bound<Cursor>))
        requires
            range_within(range, old(self)@.len() as int),
        ensures
            final(self)@ == splice(
                old(self)@,
                start_index(range.0, old(self)@.len() as int),
                end_index(range.1, old(self)@.len() as int),
                Seq::empty(),
            ),
    {
        let n = self.chars.len();
        let start = start_offset(range.0, n);
        let end = end_offset(range.1, n);
        let none: Vec<char> = Vec::new();
        self.splice(start, end, &none);
    }
}

/// Deleting a range and then inserting the deleted text, with an edit of the
/// empty range at the range's start, gives back the text as it was.
pub proof fn lemma_delete_then_restore(s: Seq<char>, range: (Bound<Cursor>, Bound<Cursor>))
    requires
        s.len() <= usize::MAX,
        range_within(range, s.len() as int),
    ensures
        ({
            let start = start_index(range.0, s.len() as int);
            let end = end_index(range.1, s.len() as int);
            let deleted = splice(s, start, end, Seq::empty());
            let back = (Bound::Included(at(start)), Bound::Excluded(at(start)));
            &&& range_within(back, deleted.len() as int)
            &&& splice(
                deleted,
                start_index(back.0, deleted.len() as int),
                end_index(back.1, deleted.len() as int),
                s.subrange(start, end),
            ) == s
        }),
{
    let start = start_index(range.0, s.len() as int);
    let end = end_index(range.1, s.len() as int);
    let d = splice(s, start, end, Seq::empty());
    assert(d.subrange(0, start) =~= s.subrange(0, start));
    assert(d.subrange(start, d.len() as int) =~= s.subrange(end, s.len() as int));
    assert(splice(d, start, start, s.subrange(start, end)) =~= s);
}

/// What a buffer holds: its text and its cursor.
pub struct Snapshot {
    pub text: Seq<char>,
    pub cursor: Cursor,
}

/// The cursor `c` kept within a text of `n` characters.
pub open spec fn clamp(c: Cursor, n: int) -> Cursor {
    if c.offset <= n {
        c
    } else {
        at(n)
    }
}

/// A text together with a cursor into it.
#[derive(Debug)]
pub struct Buffer {
    text: Buf,
    cursor: Cursor,
}

impl View for Buffer {
    type V = Snapshot;

    closed spec fn view(&self) -> Snapshot {
        Snapshot { text: self.text@, cursor: self.cursor }
    }
}

impl Buffer {
    /// The cursor lies within the text.
    pub open spec fn wf(&self) -> bool {
        self@.cursor.offset <= self@.text.len()
    }

    /// Creates an empty buffer with its cursor at the start.
    pub fn new() -> (r: Buffer)
        ensures
            r@ == (Snapshot { text: Seq::empty(), cursor: at(0) }),
            r.wf(),
    {
        Buffer { text: Buf::new(), cursor: Cursor::origin() }
    }

    /// Creates a buffer that holds `text`, with its cursor at the start.
    pub fn from(text: &str) -> (r: Buffer)
        ensures
            r@ == (Snapshot { text: text@, cursor: at(0) }),
            r.wf(),
    {
        Buffer { text: Buf::from(text), cursor: Cursor::origin() }
    }

    /// Returns the cursor position.
    pub fn cursor(&self) -> (r: Cursor)
        ensures
            r == self@.cursor,
    {
        self.cursor
    }

    /// Sets the cursor position and returns the old one.
    pub fn set_cursor(&mut self, cursor: Cursor) -> (r: Cursor)
        requires
            cursor.offset <= old(self)@.text.len(),
        ensures
            r == old(self)@.cursor,
            final(self)@ == (Snapshot { text: old(self)@.text, cursor }),
            final(self).wf(),
    {
        let previous = self.cursor;
        self.cursor = cursor;
        previous
    }

    /// Returns the buffer's text.
    pub fn content(&self) -> (r: &Buf)
        ensures
            r@ == self@.text,
    {
        &self.text
    }

    /// Returns the buffer's text as a string.
    pub fn to_string(&self) -> (r: String)
        ensures
            r@ == self@.text,
    {
        self.text.to_string()
    }

    /// Returns the character at `at`, or `None` past the end.
    pub fn get(&self, at: Cursor) -> (r: Option<char>)
        ensures
            r == if at.offset < self@.text.len() {
                Some(self@.text[at.offset as int])
            } else {
                None
            },
    {
        self.text.get(at)
    }

    /// Returns line `idx`, or `None` when the buffer has no such line.
    pub fn line(&self, idx: usize) -> (r: Option<Row>)
        ensures
            idx < row_count(self@.text) ==> (r matches Some(row) && row@ == row_text(
                self@.text,
                idx as nat,
            )),
            idx >= row_count(self@.text) ==> r is None,
    {
        self.text.line(idx)
    }

    /// Inserts `ch` at `at`, leaving the cursor where it is.
    pub fn insert(&mut self, ch: char, at: Cursor)
        requires
            old(self).wf(),
            at.offset <= old(self)@.text.len(),
        ensures
            final(self)@ == (Snapshot {
                text: old(self)@.text.insert(at.offset as int, ch),
                cursor: old(self)@.cursor,
            }),
            final(self).wf(),
    {
        self.text.insert(at, ch);
    }

    /// Inserts `ch` at the cursor and moves the cursor past it.
    pub fn append(&mut self, ch: char)
        requires
            old(self).wf(),
        ensures
            final(self)@ == (Snapshot {
                text: old(self)@.text.insert(old(self)@.cursor.offset as int, ch),
                cursor: at(old(self)@.cursor.offset + 1),
            }),
            final(self).wf(),
    {
        self.text.insert(self.cursor, ch);
        if let Some(next) = self.cursor.forward(&self.text, Metric::Codepoint) {
            self.cursor = next;
        }
    }

    /// Replaces the text in `range` with `text`, keeping the cursor within
    /// the new text.
    pub fn edit(&mut self, text: &str, range: (Bound<Cursor>, Bound<Cursor>))
        requires
            old(self).wf(),
            range_within(range, old(self)@.text.len() as int),
        ensures
            final(self)@.text == splice(
                old(self)@.text,
                start_index(range.0, old(self)@.text.len() as int),
                end_index(range.1, old(self)@.text.len() as int),
                text@,
            ),
            final(self)@.cursor == clamp(old(self)@.cursor, final(self)@.text.len() as int),
            final(self).wf(),
    {
        self.text.edit(range, text);
        if self.cursor.offset > self.text.len() {
            self.cursor = Cursor::new(self.text.len());
        }
    }

    /// Removes the text in `range`, keeping the cursor within the new text.
    pub fn delete(&mut self, range: (Bound<Cursor>, Bound<Cursor>))
        requires
            old(self).wf(),
            range_within(range, old(self)@.text.len() as int),
        ensures
            final(self)@.text == splice(
                old(self)@.text,
                start_index(range.0, old(self)@.text.len() as int),
                end_index(range.1, old(self)@.text.len() as int),
                Seq::empty(),
            ),
            final(self)@.cursor == clamp(old(self)@.cursor, final(self)@.text.len() as int),
            final(self).wf(),
    {
        self.text.delete(range);
        if self.cursor.offset > self.text.len() {
            self.cursor = Cursor::new(self.text.len());
        }
    }

    /// Returns a walk over the character boundaries of the text, anchored at
    /// `cursor`.
    pub fn cells(&self, cursor: Cursor) -> (r: CursorIterator<'_>)
        requires
            cursor.offset <= self@.text.len(),
        ensures
            r@ == (Walk { anchor: cursor, text: self@.text, metric: Metric::Codepoint }),
            r.wf(),
    {
        cursor.iter(&self.text, Metric::Codepoint)
    }

    /// Returns a walk over the paragraph starts of the text, anchored at
    /// `cursor`.
    pub fn paragraphs(&self, cursor: Cursor) -> (r: CursorIterator<'_>)
        requires
            cursor.offset <= self@.text.len(),
        ensures
            r@ == (Walk { anchor: cursor, text: self@.text, metric: Metric::Paragraph }),
            r.wf(),
    {
        cursor.iter(&self.text, Metric::Paragraph)
    }

    /// Moves the cursor to the next position under `metric`; returns that
    /// position, or `None` (moving nothing) when there is none.
    pub fn forward(&mut self, metric: Metric) -> (r: Option<Cursor>)
        requires
            old(self).wf(),
        ensures
            r == next_spec(metric, old(self)@.text, old(self)@.cursor),
            final(self)@ == (Snapshot {
                text: old(self)@.text,
                cursor: match r {
                    Some(c) => c,
                    None => old(self)@.cursor,
                },
            }),
            final(self).wf(),
    {
        let r = self.cursor.forward(&self.text, metric);
        if let Some(c) = r {
            self.cursor = c;
        }
        r
    }

    /// Moves the cursor to the previous position under `metric`; returns
    /// that position, or `None` (moving nothing) when there is none.
    pub fn backward(&mut self, metric: Metric) -> (r: Option<Cursor>)
        requires
            old(self).wf(),
        ensures
            r == prev_spec(metric, old(self)@.text, old(self)@.cursor),
            final(self)@ == (Snapshot {
                text: old(self)@.text,
                cursor: match r {
                    Some(c) => c,
                    None => old(self)@.cursor,
                },
            }),
            final(self).wf(),
    {
        let r = self.cursor.backward(&self.text, metric);
        if let Some(c) = r {
            self.cursor = c;
        }
        r
    }
}

} // verus!
