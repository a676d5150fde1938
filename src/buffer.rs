use vstd::prelude::*;

use crate::event::{Event, Key};

verus! {

/// The abstract state of a buffer: its lines and the cursor's (line, column).
pub struct BufferView {
    pub lines: Seq<Seq<char>>,
    pub line: nat,
    pub column: nat,
}

impl BufferView {
    /// The three invariants: at least one line, the cursor's line exists,
    /// and its column lies within that line (the end included).
    pub open spec fn wf(self) -> bool {
        &&& self.lines.len() >= 1
        &&& self.line < self.lines.len()
        &&& self.column <= self.lines[self.line as int].len()
    }

    /// The line the cursor is on.
    pub open spec fn current(self) -> Seq<char> {
        self.lines[self.line as int]
    }

    /// The state a buffer starts in: one empty line, cursor at (0, 0).
    pub open spec fn initial() -> BufferView {
        BufferView { lines: seq![Seq::<char>::empty()], line: 0, column: 0 }
    }

    /// Text `s` goes in at the cursor; the cursor moves past it.
    pub open spec fn insert_text(self, s: Seq<char>) -> BufferView {
        let l = self.current();
        let c = self.column as int;
        BufferView {
            lines: self.lines.update(
                self.line as int,
                l.subrange(0, c) + s + l.subrange(c, l.len() as int),
            ),
            line: self.line,
            column: self.column + s.len(),
        }
    }

    /// Delete-backward: remove the character before the cursor, or join the
    /// line to the one above it, or do nothing at the start of the buffer.
    pub open spec fn delete_backward(self) -> BufferView {
        if self.column > 0 {
            BufferView {
                lines: self.lines.update(self.line as int, self.current().remove(self.column - 1)),
                line: self.line,
                column: (self.column - 1) as nat,
            }
        } else if self.line > 0 {
            let prev = self.lines[self.line - 1];
            BufferView {
                lines: self.lines.update(self.line - 1, prev + self.current()).remove(
                    self.line as int,
                ),
                line: (self.line - 1) as nat,
                column: prev.len(),
            }
        } else {
            self
        }
    }

    /// Split the current line at the cursor; the cursor goes to the start of
    /// the new line below.
    pub open spec fn split_line(self) -> BufferView {
        let l = self.current();
        let c = self.column as int;
        BufferView {
            lines: self.lines.update(self.line as int, l.subrange(0, c)).insert(
                self.line + 1 as int,
                l.subrange(c, l.len() as int),
            ),
            line: self.line + 1,
            column: 0,
        }
    }

    /// One step left, wrapping to the end of the previous line.
    pub open spec fn move_left(self) -> BufferView {
        if self.column > 0 {
            BufferView { column: (self.column - 1) as nat, ..self }
        } else if self.line > 0 {
            BufferView {
                line: (self.line - 1) as nat,
                column: self.lines[self.line - 1].len(),
                ..self
            }
        } else {
            self
        }
    }

    /// One step right, wrapping to the start of the next line.
    pub open spec fn move_right(self) -> BufferView {
        if self.column < self.current().len() {
            BufferView { column: self.column + 1, ..self }
        } else if self.line < self.lines.len() - 1 {
            BufferView { line: self.line + 1, column: 0, ..self }
        } else {
            self
        }
    }

    /// The effect of one event. Key releases and unknown keys change nothing.
    pub open spec fn step(self, e: Event) -> BufferView {
        match e {
            Event::InsertText(s) => self.insert_text(s@),
            Event::Key { key, pressed } => {
                if !pressed {
                    self
                } else {
                    match key {
                        Key::Backspace => self.delete_backward(),
                        Key::Enter => self.split_line(),
                        Key::ArrowLeft => self.move_left(),
                        Key::ArrowRight => self.move_right(),
                        Key::Other => self,
                    }
                }
            },
        }
    }

    /// The effect of a sequence of events, applied left to right.
    pub open spec fn run(self, events: Seq<Event>) -> BufferView
        decreases events.len(),
    {
        if events.len() == 0 {
            self
        } else {
            self.step(events[0]).run(events.drop_first())
        }
    }
}

/// A sequence of lines, each a sequence of characters, and a cursor.
pub struct LineBuffer {
    lines: Vec<Vec<char>>,
    line: usize,
    column: usize,
}

impl View for LineBuffer {
    type V = BufferView;

    closed spec fn view(&self) -> BufferView {
        BufferView {
            lines: self.lines@.map_values(|l: Vec<char>| l@),
            line: self.line as nat,
            column: self.column as nat,
        }
    }
}

impl LineBuffer {
    /// Well-formedness of the stored state.
    pub open spec fn wf(&self) -> bool {
        self@.wf()
    }

    /// A buffer with one empty line and the cursor at (0, 0).
    pub fn new() -> (b: LineBuffer)
        ensures
            b@ == BufferView::initial(),
            b.wf(),
    {
        let mut lines: Vec<Vec<char>> = Vec::new();
        lines.push(Vec::new());
        let b = LineBuffer { lines, line: 0, column: 0 };
        assert(b@.lines =~= BufferView::initial().lines);
        b
    }

    /// Inserts `s` at the cursor, on the cursor's line, and moves the cursor
    /// past it. Line breaks inside `s` do not split the line.
    pub fn insert_text(&mut self, s: &str)
        requires
            old(self).wf(),
        ensures
            final(self).wf(),
            final(self)@ == old(self)@.insert_text(s@),
    {
        let ghost start = self@;
        let i = self.line;
        let c = self.column;
        let mut rest = self.lines[i].split_off(c);
        for ch in it: s.chars()
            invariant
                i == self.line,
                c == self.column,
                i < self.lines@.len(),
                self.lines@.len() == old(self).lines@.len(),
                forall|j: int|
                    0 <= j < self.lines@.len() && j != i ==> #[trigger] self.lines@[j]
                        == old(self).lines@[j],
                self.lines@[i as int]@ == start.current().subrange(0, c as int) + s@.take(it.index()),
                it.seq() == s@,
                rest@ == start.current().subrange(c as int, start.current().len() as int),
                start == old(self)@,
        {
            self.lines[i].push(ch);
            assert(s@.take(it.index() + 1) =~= s@.take(it.index()).push(ch));
        }
        assert(s@.take(s@.len() as int) =~= s@);
        self.column = self.lines[i].len();
        self.lines[i].append(&mut rest);
        assert(self@.lines =~= start.insert_text(s@).lines);
    }

    /// Removes the character before the cursor; at the start of a line, joins
    /// that line to the one above and leaves the cursor at the join; at the
    /// start of the buffer, does nothing.
    pub fn delete_backward(&mut self)
        requires
            old(self).wf(),
        ensures
            final(self).wf(),
            final(self)@ == old(self)@.delete_backward(),
    {
        let ghost start = self@;
        let i = self.line;
        if self.column > 0 {
            let c = self.column - 1;
            self.lines[i].remove(c);
            self.column = c;
            assert(self@.lines =~= start.delete_backward().lines);
        } else if i > 0 {
            let mut cur = self.lines.remove(i);
            let p = i - 1;
            let join = self.lines[p].len();
            self.lines[p].append(&mut cur);
            self.line = p;
            self.column = join;
            assert(self@.lines =~= start.delete_backward().lines);
        }
    }

    /// Splits the cursor's line at the cursor; the text after it becomes a
    /// new line just below, and the cursor moves to that line's start.
    pub fn split_line(&mut self)
        requires
            old(self).wf(),
        ensures
            final(self).wf(),
            final(self)@ == old(self)@.split_line(),
    {
        let ghost start = self@;
        let i = self.line;
        let count = self.lines.len();
        assert(i < count);
        let rest = self.lines[i].split_off(self.column);
        self.lines.insert(i + 1, rest);
        self.line = i + 1;
        self.column = 0;
        assert(self@.lines =~= start.split_line().lines);
    }

    /// Moves the cursor one character left, wrapping to the end of the
    /// previous line.
    pub fn move_left(&mut self)
        requires
            old(self).wf(),
        ensures
            final(self).wf(),
            final(self)@ == old(self)@.move_left(),
    {
        if self.column > 0 {
            self.column = self.column - 1;
        } else if self.line > 0 {
            self.line = self.line - 1;
            self.column = self.lines[self.line].len();
        }
    }

    /// Moves the cursor one character right, wrapping to the start of the
    /// next line.
    pub fn move_right(&mut self)
        requires
            old(self).wf(),
        ensures
            final(self).wf(),
            final(self)@ == old(self)@.move_right(),
    {
        if self.column < self.lines[self.line].len() {
            self.column = self.column + 1;
        } else if self.line < self.lines.len() - 1 {
            self.line = self.line + 1;
            self.column = 0;
        }
    }

    /// Applies one event. A key release, or a key the editor does not know,
    /// leaves the buffer as it is.
    pub fn apply(&mut self, e: &Event)
        requires
            old(self).wf(),
        ensures
            final(self).wf(),
            final(self)@ == old(self)@.step(*e),
    {
        match e {
            Event::InsertText(s) => self.insert_text(s.as_str()),
            Event::Key { key, pressed } => {
                if *pressed {
                    match key {
                        Key::Backspace => self.delete_backward(),
                        Key::Enter => self.split_line(),
                        Key::ArrowLeft => self.move_left(),
                        Key::ArrowRight => self.move_right(),
                        Key::Other => {},
                    }
                }
            },
        }
    }

    /// Applies a batch of events one after another, in order.
    pub fn apply_all(&mut self, events: &Vec<Event>)
        requires
            old(self).wf(),
        ensures
            final(self).wf(),
            final(self)@ == old(self)@.run(events@),
    {
        let ghost start = self@;
        let n = events.len();
        let mut k: usize = 0;
        assert(events@.subrange(0, n as int) =~= events@);
        while k < n
            invariant
                n == events@.len(),
                k <= n,
                self.wf(),
                start.run(events@) == self@.run(events@.subrange(k as int, n as int)),
            decreases n - k,
        {
            assert(events@.subrange(k as int, n as int).drop_first() =~= events@.subrange(
                k + 1,
                n as int,
            ));
            self.apply(&events[k]);
            k = k + 1;
        }
        assert(events@.subrange(n as int, n as int) =~= Seq::<Event>::empty());
    }

    /// The number of lines.
    pub fn line_count(&self) -> (n: usize)
        ensures
            n == self@.lines.len(),
    {
        self.lines.len()
    }

    /// The cursor as (line, column), both counted from zero; the column
    /// counts characters.
    pub fn cursor(&self) -> (r: (usize, usize))
        ensures
            r.0 == self@.line,
            r.1 == self@.column,
    {
        (self.line, self.column)
    }

    /// The text of line `i`.
    pub fn line(&self, i: usize) -> (r: String)
        requires
            i < self@.lines.len(),
        ensures
            r@ == self@.lines[i as int],
    {
        let l = &self.lines[i];
        let mut r = String::new();
        let mut k: usize = 0;
        while k < l.len()
            invariant
                l@ == self@.lines[i as int],
                k <= l@.len(),
                r@ == l@.take(k as int),
            decreases l@.len() - k,
        {
            push_char(&mut r, l[k]);
            k = k + 1;
            assert(r@ =~= l@.take(k as int));
        }
        assert(l@.take(l@.len() as int) =~= l@);
        r
    }

    /// The text of every line, top to bottom.
    pub fn lines(&self) -> (r: Vec<String>)
        ensures
            r@.len() == self@.lines.len(),
            forall|j: int| 0 <= j < r@.len() ==> #[trigger] r@[j]@ == self@.lines[j],
    {
        let mut r: Vec<String> = Vec::new();
        let n = self.lines.len();
        let mut k: usize = 0;
        while k < n
            invariant
                n == self@.lines.len(),
                k <= n,
                r@.len() == k,
                forall|j: int| 0 <= j < k ==> #[trigger] r@[j]@ == self@.lines[j],
            decreases n - k,
        {
            r.push(self.line(k));
            k = k + 1;
        }
        r
    }
}

impl Default for LineBuffer {
    fn default() -> (b: LineBuffer)
        ensures
            b@ == BufferView::initial(),
            b.wf(),
    {
        LineBuffer::new()
    }
}

/// Relies on std's `String::push`: appends `c` at the end of `s`.
#[verifier::external_body]
fn push_char(s: &mut String, c: char)
    ensures
        final(s)@ == old(s)@.push(c),
{
    s.push(c);
}

} // verus!
