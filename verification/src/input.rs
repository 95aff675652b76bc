//! The text input buffer: a line of characters and a cursor that always sits
//! inside `[0, length]`. Every edit is total over that bounded state; none of
//! them can fail.

use vstd::prelude::*;

verus! {

/// Mathematical model of the buffer: the characters as a sequence, and the
/// cursor as an offset into it. The cursor may equal the length, which means
/// "at the end of the line".
pub struct InputView {
    pub text: Seq<char>,
    pub cursor: int,
}

impl InputView {
    /// The buffer's invariant: the cursor never leaves `[0, length]`.
    pub open spec fn wf(self) -> bool {
        0 <= self.cursor <= self.text.len()
    }
}

/// Inserting a character places it at the cursor and advances the cursor past
/// it.
pub open spec fn spec_insert(v: InputView, c: char) -> InputView {
    InputView { text: v.text.insert(v.cursor, c), cursor: v.cursor + 1 }
}

/// Deleting backward removes the character just before the cursor; with the
/// cursor at the start there is nothing before it and the buffer is unchanged.
pub open spec fn spec_delete_backward(v: InputView) -> InputView {
    if v.cursor == 0 {
        v
    } else {
        InputView { text: v.text.remove(v.cursor - 1), cursor: v.cursor - 1 }
    }
}

/// Moving the cursor adds the delta and clamps the result into `[0, length]`.
pub open spec fn spec_move_cursor(v: InputView, delta: int) -> InputView {
    let target = v.cursor + delta;
    let clamped = if target < 0 {
        0
    } else if target > v.text.len() {
        v.text.len() as int
    } else {
        target
    };
    InputView { text: v.text, cursor: clamped }
}

/// The editable line of a credential form. Created empty when the session's
/// screen is built, and kept across a modal close and reopen: a submission
/// failure must leave the typed value intact.
pub struct InputBuffer {
    value: Vec<char>,
    cursor: usize,
}

impl View for InputBuffer {
    type V = InputView;

    closed spec fn view(&self) -> InputView {
        InputView { text: self.value@, cursor: self.cursor as int }
    }
}

/// Relies on std's `String::push`: appends the given character to the end of
/// the string.
#[verifier::external_body]
fn push_char(s: &mut String, c: char)
    ensures
        final(s)@ == old(s)@ + seq![c],
{
    s.push(c);
}

impl InputBuffer {
    pub fn new() -> (b: InputBuffer)
        ensures
            b@ == (InputView { text: Seq::<char>::empty(), cursor: 0 }),
            b@.wf(),
    {
        InputBuffer { value: Vec::new(), cursor: 0 }
    }

    /// Insert `c` at the cursor and advance the cursor past it. Total but for
    /// the machine limit: a line longer than the address space cannot grow.
    pub fn insert(&mut self, c: char)
        requires
            old(self)@.wf(),
            old(self)@.text.len() < usize::MAX,
        ensures
            final(self)@ == spec_insert(old(self)@, c),
            final(self)@.wf(),
    {
        self.value.insert(self.cursor, c);
        self.cursor = self.cursor + 1;
    }

    /// Remove the character before the cursor, if any; at the start of the
    /// line this is a no-op.
    pub fn delete_backward(&mut self)
        requires
            old(self)@.wf(),
        ensures
            final(self)@ == spec_delete_backward(old(self)@),
            final(self)@.wf(),
            old(self)@.cursor == 0 ==> final(self)@ == old(self)@,
    {
        if self.cursor > 0 {
            let _removed = self.value.remove(self.cursor - 1);
            self.cursor = self.cursor - 1;
        }
    }

    /// Move the cursor by `delta`, clamping the result into `[0, length]`.
    pub fn move_cursor(&mut self, delta: isize)
        requires
            old(self)@.wf(),
        ensures
            final(self)@ == spec_move_cursor(old(self)@, delta as int),
            final(self)@.wf(),
    {
        if delta >= 0 {
            let step = delta as usize;
            let room = self.value.len() - self.cursor;
            if step > room {
                self.cursor = self.value.len();
            } else {
                self.cursor = self.cursor + step;
            }
        } else {
            // The magnitude of `delta` is `step + 1`; going through
            // `delta + 1` avoids negating the type's minimum value.
            let step = (-(delta + 1)) as usize;
            if step >= self.cursor {
                self.cursor = 0;
            } else {
                self.cursor = self.cursor - step - 1;
            }
        }
    }

    /// The cursor's offset into the line.
    pub fn cursor(&self) -> (c: usize)
        ensures
            c as int == self@.cursor,
    {
        self.cursor
    }

    /// The number of characters in the line.
    pub fn len(&self) -> (n: usize)
        ensures
            n as int == self@.text.len(),
    {
        self.value.len()
    }

    /// The typed value as a string.
    pub fn value(&self) -> (s: String)
        ensures
            s@ == self@.text,
    {
        self.collect_range(0, self.value.len())
    }

    /// The read-only projection a renderer needs to draw a cursor highlight:
    /// the text before the cursor, the character the cursor sits on — a blank
    /// placeholder when the cursor is at the end of the line — and the text
    /// after it.
    pub fn cursor_and_split(&self) -> (r: (String, char, String))
        requires
            self@.wf(),
        ensures
            r.0@ == self@.text.subrange(0, self@.cursor),
            self@.cursor == self@.text.len() ==> r.1 == ' ' && r.2@ == Seq::<char>::empty(),
            self@.cursor < self@.text.len() ==> r.1 == self@.text[self@.cursor] && r.2@
                == self@.text.subrange(self@.cursor + 1, self@.text.len() as int),
    {
        let before = self.collect_range(0, self.cursor);
        if self.cursor < self.value.len() {
            let under = self.value[self.cursor];
            let after = self.collect_range(self.cursor + 1, self.value.len());
            (before, under, after)
        } else {
            proof {
                assert(self@.text.subrange(
                    self@.text.len() as int,
                    self@.text.len() as int,
                ) =~= Seq::<char>::empty());
            }
            (before, ' ', String::new())
        }
    }

    /// Copy the characters in `[from, to)` into a fresh string.
    fn collect_range(&self, from: usize, to: usize) -> (s: String)
        requires
            from <= to <= self@.text.len(),
        ensures
            s@ == self@.text.subrange(from as int, to as int),
    {
        let mut s = String::new();
        let mut i: usize = from;
        while i < to
            invariant
                from <= i <= to <= self@.text.len(),
                s@ == self@.text.subrange(from as int, i as int),
            decreases to - i,
        {
            push_char(&mut s, self.value[i]);
            proof {
                assert(self@.text.subrange(from as int, i as int) + seq![self@.text[i as int]]
                    =~= self@.text.subrange(from as int, i + 1));
            }
            i = i + 1;
        }
        s
    }
}

/// Editing law: with the cursor at the start of the line, deleting backward
/// changes neither the value nor the cursor.
pub proof fn lemma_delete_backward_at_start(v: InputView)
    requires
        v.wf(),
        v.cursor == 0,
    ensures
        spec_delete_backward(v) == v,
{
}

/// Editing law: inserting a character and deleting backward right after is an
/// identity on both the value and the cursor.
pub proof fn lemma_insert_then_delete_backward(v: InputView, c: char)
    requires
        v.wf(),
    ensures
        spec_delete_backward(spec_insert(v, c)) == v,
{
    assert(spec_insert(v, c).text.remove(v.cursor) =~= v.text);
}

} // verus!
