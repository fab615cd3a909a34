//! The single error kind of the algebra: a position and a message.

use vstd::prelude::*;

verus! {

/// Where and why a parse attempt failed, as a mathematical value.
pub struct Failure {
    /// The position of the cursor at the moment of failure.
    pub pos: nat,
    /// The reason given by the failing parser.
    pub message: Seq<char>,
}

/// A parse error. It carries the position at which the failing primitive
/// gave up and its message; it never carries partial results.
#[derive(Debug)]
pub struct SimpleError {
    pos: usize,
    message: String,
}

impl View for SimpleError {
    type V = Failure;

    closed spec fn view(&self) -> Failure {
        Failure { pos: self.pos as nat, message: self.message@ }
    }
}

impl SimpleError {
    /// Builds the error raised at `pos` with the reason `message`.
    pub fn new(pos: usize, message: String) -> (e: SimpleError)
        ensures
            e@ == (Failure { pos: pos as nat, message: message@ }),
    {
        SimpleError { pos, message }
    }

    /// The position at which the parse failed.
    pub fn pos(&self) -> (p: usize)
        ensures
            p == self@.pos,
    {
        self.pos
    }

    /// The reason of the failure.
    pub fn message(&self) -> (m: &str)
        ensures
            m@ == self@.message,
    {
        self.message.as_str()
    }
}

} // verus!
