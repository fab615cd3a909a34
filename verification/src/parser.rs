//! What a parser is: a model of one invocation, and the executable entry
//! points that are proved to follow it.

use std::sync::Arc;
use vstd::prelude::*;
use crate::error::{Failure, SimpleError};
use crate::state::{Stream, VecState};

verus! {

/// The outcome of a parse: success carrying a shared, immutable value, or
/// failure carrying a position and a message.
pub type Status<R> = Result<Arc<R>, SimpleError>;

/// The mathematical value of a [`Status`]: the value behind the shared
/// handle, or the failure.
pub open spec fn status_view<R>(status: Status<R>) -> Result<R, Failure> {
    match status {
        Ok(value) => Ok(*value),
        Err(error) => Err(error@),
    }
}

/// Everything one invocation of a parser leaves behind.
pub struct Outcome<P, T, R> {
    /// The parser as it stands after the invocation.
    pub parser: P,
    /// The stream as it stands after the invocation.
    pub stream: Stream<T>,
    /// Success with the parsed value, or the failure.
    pub result: Result<R, Failure>,
}

impl<P, T, R> Outcome<P, T, R> {
    /// The same stream and result, with `parser` as the parser left behind.
    pub open spec fn with_parser<Q>(self, parser: Q) -> Outcome<Q, T, R> {
        Outcome { parser, stream: self.stream, result: self.result }
    }
}

/// A parser over tokens of type `T`: a value that can be invoked on a
/// stream any number of times.
pub trait Parser<T>: Sized {
    /// The type of the value that a successful parse yields.
    type Output;

    /// The model of one invocation on `input`: the parser and the stream
    /// afterwards, and the result. Every parser that is to be verified
    /// defines it. Left undefined it is some function of which nothing is
    /// known, so that nothing can be proved of such a parser either.
    open spec fn run(self, input: Stream<T>) -> Outcome<Self, T, Self::Output> {
        arbitrary()
    }

    /// Invokes the parser on `state`, keeping the parser for further use.
    /// The parser and the stream afterwards, and the result, are those of
    /// the model.
    fn call_mut(&mut self, state: &mut VecState<T>) -> (status: Status<Self::Output>)
        ensures
            old(self).run(old(state)@) == (Outcome {
                parser: *final(self),
                stream: final(state)@,
                result: status_view(status),
            }),
    ;

    /// Invokes the parser on `state` for the last time. The stream
    /// afterwards and the result are those of the model.
    fn call_once(self, state: &mut VecState<T>) -> (status: Status<Self::Output>)
        ensures
            self.run(old(state)@).stream == final(state)@,
            self.run(old(state)@).result == status_view(status),
    ;
}

/// A continuation: from the value that one parser produced to the parser
/// that goes on from there.
pub trait Binder<T, C> {
    /// The type of the parsers that the continuation builds.
    type Next: Parser<T>;

    /// The model of [`Binder::build`]: the parser that follows `value`.
    /// Every continuation that is to be verified defines it. Left undefined
    /// it is some function of which nothing is known.
    open spec fn continuation(&self, value: C) -> Self::Next {
        arbitrary()
    }

    /// Builds the parser that follows `value`. It depends on nothing but
    /// the continuation and the value.
    fn build(&self, value: Arc<C>) -> (next: Self::Next)
        ensures
            next == self.continuation(*value),
    ;
}

} // verus!
