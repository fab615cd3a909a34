//! The token stream that parsers read: a sequence of tokens and a cursor.

use vstd::prelude::*;

verus! {

/// A token stream as a mathematical value: the tokens and the position of
/// the cursor among them.
pub struct Stream<T> {
    /// Every token of the stream, consumed or not.
    pub tokens: Seq<T>,
    /// The index of the next token to be read.
    pub pos: nat,
}

impl<T> Stream<T> {
    /// The same tokens with the cursor placed at `pos`.
    pub open spec fn at(self, pos: nat) -> Stream<T> {
        Stream { tokens: self.tokens, pos }
    }

    /// Whether the cursor stands before a token.
    pub open spec fn has_next(self) -> bool {
        self.pos < self.tokens.len()
    }
}

/// A cursor over a vector of tokens.
pub struct VecState<T> {
    buffer: Vec<T>,
    index: usize,
}

impl<T> View for VecState<T> {
    type V = Stream<T>;

    closed spec fn view(&self) -> Stream<T> {
        Stream { tokens: self.buffer@, pos: self.index as nat }
    }
}

impl<T> VecState<T> {
    /// A cursor at the start of `tokens`.
    pub fn new(tokens: Vec<T>) -> (state: VecState<T>)
        ensures
            state@ == (Stream { tokens: tokens@, pos: 0 }),
    {
        VecState { buffer: tokens, index: 0 }
    }

    /// The current position. Reading it moves nothing.
    pub fn pos(&self) -> (p: usize)
        ensures
            p == self@.pos,
    {
        self.index
    }

    /// Places the cursor at `to`, a position observed earlier. Nothing but
    /// the position changes.
    pub fn seek_to(&mut self, to: usize)
        ensures
            final(self)@ == old(self)@.at(to as nat),
    {
        self.index = to;
    }

    /// Reads the token under the cursor and steps past it; at or beyond the
    /// end of the tokens, reads nothing and stays.
    pub fn next(&mut self) -> (token: Option<&T>)
        ensures
            old(self)@.has_next() ==> token == Some(&old(self)@.tokens[old(self)@.pos as int])
                && final(self)@ == old(self)@.at(old(self)@.pos + 1),
            !old(self)@.has_next() ==> token.is_none() && final(self)@ == old(self)@,
    {
        if self.index < self.buffer.len() {
            let i: usize = self.index;
            self.index = i + 1;
            Some(&self.buffer[i])
        } else {
            None
        }
    }
}

} // verus!
