//! A cursor over an immutable buffer of tokens, with exact checkpoints.
use vstd::prelude::*;

verus! {

/// A half-open range `[start, end)` of token offsets.
#[derive(Clone, Copy, Debug, PartialEq, Eq, Structural)]
pub struct Span {
    pub start: usize,
    pub end: usize,
}

/// The token at `pos`, or `None` at (or past) the end of the input.
pub open spec fn token_at(input: Seq<char>, pos: nat) -> Option<char> {
    if pos < input.len() {
        Some(input[pos as int])
    } else {
        None
    }
}

/// The offset after reading once at `pos`: one further, unless the input has ended.
pub open spec fn step(input: Seq<char>, pos: nat) -> nat {
    if pos < input.len() {
        pos + 1
    } else {
        pos
    }
}

/// The span of one read at `pos`: the token read, or an empty span at the end.
pub open spec fn read_span(input: Seq<char>, pos: nat) -> Span {
    Span { start: pos as usize, end: step(input, pos) as usize }
}

/// A saved cursor state.
#[derive(Clone, Copy, Debug)]
pub struct Checkpoint {
    offset: usize,
}

impl Checkpoint {
    /// The offset the checkpoint restores.
    pub closed spec fn offset(&self) -> nat {
        self.offset as nat
    }
}

/// What a cursor is, observationally: the whole input and the offset of the next token.
pub struct CursorView {
    pub tokens: Seq<char>,
    pub pos: nat,
}

/// A read position into a buffer of tokens that is fixed for the cursor's life.
pub struct Cursor {
    input: Vec<char>,
    offset: usize,
}

impl View for Cursor {
    type V = CursorView;

    closed spec fn view(&self) -> CursorView {
        CursorView { tokens: self.input@, pos: self.offset as nat }
    }
}

impl Cursor {
    /// The offset never passes the end of the input.
    pub open spec fn wf(&self) -> bool {
        self@.pos <= self@.tokens.len()
    }

    /// A cursor at the start of `input`.
    pub fn new(input: Vec<char>) -> (r: Cursor)
        ensures
            r.wf(),
            r@.tokens == input@,
            r@.pos == 0,
    {
        Cursor { input, offset: 0 }
    }

    /// The offset of the next token.
    pub fn offset(&self) -> (r: usize)
        ensures
            r == self@.pos,
    {
        self.offset
    }

    /// The number of tokens in the whole input.
    pub fn len(&self) -> (r: usize)
        ensures
            r == self@.tokens.len(),
    {
        self.input.len()
    }

    /// Takes a checkpoint of the current state.
    pub fn save(&self) -> (cp: Checkpoint)
        ensures
            cp.offset() == self@.pos,
    {
        Checkpoint { offset: self.offset }
    }

    /// Restores the state saved in `cp`.
    pub fn rewind(&mut self, cp: Checkpoint)
        requires
            cp.offset() <= old(self)@.tokens.len(),
        ensures
            final(self).wf(),
            final(self)@.tokens == old(self)@.tokens,
            final(self)@.pos == cp.offset(),
    {
        self.offset = cp.offset;
    }

    /// Reads one token: returns the offset before the read and the token, or `None` at the end.
    pub fn next(&mut self) -> (r: (usize, Option<char>))
        requires
            old(self).wf(),
        ensures
            final(self).wf(),
            final(self)@.tokens == old(self)@.tokens,
            r.0 == old(self)@.pos,
            r.1 == token_at(old(self)@.tokens, old(self)@.pos),
            final(self)@.pos == step(old(self)@.tokens, old(self)@.pos),
    {
        let at = self.offset;
        if self.offset < self.input.len() {
            let tok = self.input[self.offset];
            self.offset = self.offset + 1;
            (at, Some(tok))
        } else {
            (at, None)
        }
    }

    /// The span from a checkpoint to the current offset.
    pub fn span_since(&self, cp: Checkpoint) -> (r: Span)
        ensures
            r.start == cp.offset(),
            r.end == self@.pos,
    {
        Span { start: cp.offset, end: self.offset }
    }

    /// The offset of the most recent read (the current offset).
    pub fn last_pos(&self) -> (r: usize)
        ensures
            r == self@.pos,
    {
        self.offset
    }
}

} // verus!
