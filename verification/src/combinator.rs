//! The combinators: the leaves `pack`, `fail` and `attempt`, and the
//! connectors `either`, `bind`, `then` and `over`.

use std::marker::PhantomData;
use std::sync::Arc;
use vstd::prelude::*;
use crate::error::{Failure, SimpleError};
use crate::parser::{Binder, Outcome, Parser, Status};
use crate::state::{Stream, VecState};

verus! {

/// A parser that yields one fixed value and reads nothing.
pub struct Pack<R> {
    /// The value, shared with every result.
    pub data: Arc<R>,
}

/// Builds the parser that ignores the stream and succeeds, on every
/// invocation, with a handle to `data`.
pub fn pack<R>(data: Arc<R>) -> (p: Pack<R>)
    ensures
        p == (Pack { data }),
{
    Pack { data }
}

impl<T, R> Parser<T> for Pack<R> {
    type Output = R;

    open spec fn run(self, input: Stream<T>) -> Outcome<Self, T, R> {
        Outcome { parser: self, stream: input, result: Ok(*self.data) }
    }

    fn call_mut(&mut self, state: &mut VecState<T>) -> (status: Status<R>)
        ensures
            status matches Ok(value) && *value == *old(self).data,
            final(state)@ == old(state)@,
            *final(self) == *old(self),
    {
        let data = self.data.clone();
        Ok(data)
    }

    fn call_once(self, state: &mut VecState<T>) -> (status: Status<R>)
        ensures
            status matches Ok(value) && *value == *self.data,
            final(state)@ == old(state)@,
    {
        Ok(self.data)
    }
}

/// A parser that fails with one fixed message and reads nothing. `R` is
/// the type of the value that it never yields.
pub struct Fail<R> {
    /// The message of every failure.
    pub msg: String,
    /// Stands for the value type.
    pub output: PhantomData<R>,
}

/// Builds the parser that fails, on every invocation, at the position at
/// which the cursor stands, with the message `msg`.
pub fn fail<R>(msg: String) -> (f: Fail<R>)
    ensures
        f == (Fail::<R> { msg, output: PhantomData }),
{
    Fail { msg, output: PhantomData }
}

impl<T, R> Parser<T> for Fail<R> {
    type Output = R;

    open spec fn run(self, input: Stream<T>) -> Outcome<Self, T, R> {
        Outcome {
            parser: self,
            stream: input,
            result: Err(Failure { pos: input.pos, message: self.msg@ }),
        }
    }

    fn call_mut(&mut self, state: &mut VecState<T>) -> (status: Status<R>)
        ensures
            status matches Err(error) && error@ == (Failure {
                pos: old(state)@.pos,
                message: old(self).msg@,
            }),
            final(state)@ == old(state)@,
            *final(self) == *old(self),
    {
        Err(SimpleError::new(state.pos(), self.msg.clone()))
    }

    fn call_once(self, state: &mut VecState<T>) -> (status: Status<R>)
        ensures
            status matches Err(error) && error@ == (Failure {
                pos: old(state)@.pos,
                message: self.msg@,
            }),
            final(state)@ == old(state)@,
    {
        Err(SimpleError::new(state.pos(), self.msg))
    }
}

/// The alternation of two parsers, left-biased.
pub struct Either<X, Y> {
    /// The parser tried first.
    pub x: X,
    /// The parser tried when `x` fails without having moved the cursor.
    pub y: Y,
}

/// Builds the parser that runs `x` and, where `x` fails at the position at
/// which it started, runs `y` in its place.
pub fn either<X, Y>(x: X, y: Y) -> (e: Either<X, Y>)
    ensures
        e == (Either { x, y }),
{
    Either { x, y }
}

impl<T, X, Y> Parser<T> for Either<X, Y> where X: Parser<T>, Y: Parser<T, Output = X::Output> {
    type Output = X::Output;

    open spec fn run(self, input: Stream<T>) -> Outcome<Self, T, X::Output> {
        let first = self.x.run(input);
        if first.result is Err && first.stream.pos == input.pos {
            let second = self.y.run(first.stream);
            second.with_parser(Either { x: first.parser, y: second.parser })
        } else {
            first.with_parser(Either { x: first.parser, y: self.y })
        }
    }

    fn call_mut(&mut self, state: &mut VecState<T>) -> (status: Status<X::Output>) {
        let pos: usize = state.pos();
        let val = self.x.call_mut(state);
        if val.is_ok() {
            val
        } else {
            if pos == state.pos() {
                self.y.call_mut(state)
            } else {
                val
            }
        }
    }

    fn call_once(self, state: &mut VecState<T>) -> (status: Status<X::Output>) {
        let pos: usize = state.pos();
        let fx = self.x;
        let val = fx.call_once(state);
        if val.is_ok() {
            val
        } else {
            if pos == state.pos() {
                let fy = self.y;
                fy.call_once(state)
            } else {
                val
            }
        }
    }
}

impl<X, Y> Either<X, Y> {
    /// Extends the alternation by one more alternative: the parser that
    /// tries this alternation and, where it fails without having moved the
    /// cursor, tries `p`.
    pub fn or<Z>(self, p: Z) -> (e: Either<Either<X, Y>, Z>)
        ensures
            e == (Either { x: self, y: p }),
    {
        either(self, p)
    }
}

/// A parser made safe for alternation: its failures consume no input.
pub struct Attempt<X> {
    /// The parser whose failures are rewound.
    pub parsec: X,
}

/// Builds the parser that runs `parsec` and, where it fails, puts the
/// cursor back where it stood before, however far `parsec` had read. On
/// success the cursor stays where `parsec` left it.
pub fn attempt<X>(parsec: X) -> (a: Attempt<X>)
    ensures
        a == (Attempt { parsec }),
{
    Attempt { parsec }
}

impl<T, X> Parser<T> for Attempt<X> where X: Parser<T> {
    type Output = X::Output;

    open spec fn run(self, input: Stream<T>) -> Outcome<Self, T, X::Output> {
        let inner = self.parsec.run(input);
        Outcome {
            parser: Attempt { parsec: inner.parser },
            stream: if inner.result is Err {
                inner.stream.at(input.pos)
            } else {
                inner.stream
            },
            result: inner.result,
        }
    }

    fn call_mut(&mut self, state: &mut VecState<T>) -> (status: Status<X::Output>) {
        let pos: usize = state.pos();
        let val = self.parsec.call_mut(state);
        if val.is_err() {
            state.seek_to(pos);
        }
        val
    }

    fn call_once(self, state: &mut VecState<T>) -> (status: Status<X::Output>) {
        let pos: usize = state.pos();
        let parsec = self.parsec;
        let val = parsec.call_once(state);
        if val.is_err() {
            state.seek_to(pos);
        }
        val
    }
}

/// A parser followed by a continuation that depends on what it parsed.
pub struct Bind<X, F> {
    /// The parser that runs first.
    pub parsec: X,
    /// The continuation, which builds the second parser from the value of
    /// the first.
    pub binder: F,
}

/// Builds the parser that runs `parsec` and, on success, hands its value to
/// `binder` and runs the parser that comes back, from where `parsec`
/// stopped. Where `parsec` fails, `binder` is not consulted.
pub fn bind<X, F>(parsec: X, binder: F) -> (b: Bind<X, F>)
    ensures
        b == (Bind { parsec, binder }),
{
    Bind { parsec, binder }
}

impl<T, X, F> Parser<T> for Bind<X, F> where X: Parser<T>, F: Binder<T, X::Output> {
    type Output = <F::Next as Parser<T>>::Output;

    open spec fn run(self, input: Stream<T>) -> Outcome<Self, T, Self::Output> {
        let first = self.parsec.run(input);
        let parser = Bind { parsec: first.parser, binder: self.binder };
        match first.result {
            Ok(value) => self.binder.continuation(value).run(first.stream).with_parser(parser),
            Err(failure) => Outcome { parser, stream: first.stream, result: Err(failure) },
        }
    }

    fn call_mut(&mut self, state: &mut VecState<T>) -> (status: Status<Self::Output>) {
        match self.parsec.call_mut(state) {
            Ok(x) => {
                let mut p = self.binder.build(x);
                p.call_mut(state)
            },
            Err(err) => Err(err),
        }
    }

    fn call_once(self, state: &mut VecState<T>) -> (status: Status<Self::Output>) {
        let parsec = self.parsec;
        match parsec.call_once(state) {
            Ok(x) => {
                let p = self.binder.build(x);
                p.call_once(state)
            },
            Err(err) => Err(err),
        }
    }
}

impl<X, F> Bind<X, F> {
    /// This binding followed by `postfix`, keeping the value of this one.
    pub fn over<Q>(self, postfix: Q) -> (o: Over<Bind<X, F>, Q>)
        ensures
            o == (Over { prefix: self, postfix }),
    {
        Over { prefix: self, postfix }
    }

    /// This binding followed by `postfix`, keeping the value of `postfix`.
    pub fn then<Q>(self, postfix: Q) -> (t: Then<Bind<X, F>, Q>)
        ensures
            t == (Then { prefix: self, postfix }),
    {
        Then { prefix: self, postfix }
    }

    /// This binding followed by the parser that `binder` builds from its
    /// value.
    pub fn bind<G>(self, binder: G) -> (b: Bind<Bind<X, F>, G>)
        ensures
            b == (Bind { parsec: self, binder }),
    {
        Bind { parsec: self, binder }
    }
}

/// Two parsers in sequence, of which the second gives the value.
pub struct Then<X, Y> {
    /// The parser that runs first; its value is dropped.
    pub prefix: X,
    /// The parser that runs second; its result is the result.
    pub postfix: Y,
}

/// Builds the parser that runs `prefix`, drops its value and runs `postfix`
/// from where `prefix` stopped. Where `prefix` fails, `postfix` is not run.
pub fn then<X, Y>(prefix: X, postfix: Y) -> (t: Then<X, Y>)
    ensures
        t == (Then { prefix, postfix }),
{
    Then { prefix, postfix }
}

impl<T, X, Y> Parser<T> for Then<X, Y> where X: Parser<T>, Y: Parser<T> {
    type Output = Y::Output;

    open spec fn run(self, input: Stream<T>) -> Outcome<Self, T, Y::Output> {
        let first = self.prefix.run(input);
        match first.result {
            Ok(_) => {
                let second = self.postfix.run(first.stream);
                second.with_parser(Then { prefix: first.parser, postfix: second.parser })
            },
            Err(failure) => Outcome {
                parser: Then { prefix: first.parser, postfix: self.postfix },
                stream: first.stream,
                result: Err(failure),
            },
        }
    }

    fn call_mut(&mut self, state: &mut VecState<T>) -> (status: Status<Y::Output>) {
        match self.prefix.call_mut(state) {
            Ok(_) => self.postfix.call_mut(state),
            Err(err) => Err(err),
        }
    }

    fn call_once(self, state: &mut VecState<T>) -> (status: Status<Y::Output>) {
        let prefix = self.prefix;
        match prefix.call_once(state) {
            Ok(_) => {
                let postfix = self.postfix;
                postfix.call_once(state)
            },
            Err(err) => Err(err),
        }
    }
}

impl<X, Y> Then<X, Y> {
    /// This sequence followed by `postfix`, keeping the value of this one.
    pub fn over<Q>(self, postfix: Q) -> (o: Over<Then<X, Y>, Q>)
        ensures
            o == (Over { prefix: self, postfix }),
    {
        Over { prefix: self, postfix }
    }

    /// This sequence followed by `postfix`, keeping the value of `postfix`.
    pub fn then<Q>(self, postfix: Q) -> (t: Then<Then<X, Y>, Q>)
        ensures
            t == (Then { prefix: self, postfix }),
    {
        Then { prefix: self, postfix }
    }

    /// This sequence followed by the parser that `binder` builds from its
    /// value.
    pub fn bind<G>(self, binder: G) -> (b: Bind<Then<X, Y>, G>)
        ensures
            b == (Bind { parsec: self, binder }),
    {
        Bind { parsec: self, binder }
    }
}

/// Two parsers in sequence, of which the first gives the value.
pub struct Over<X, Y> {
    /// The parser that runs first; its value is the value.
    pub prefix: X,
    /// The parser that runs second; its value is dropped.
    pub postfix: Y,
}

/// Builds the parser that runs `prefix`, keeps its value, runs `postfix`
/// from where `prefix` stopped and, where both succeed, yields the value of
/// `prefix`. Where `prefix` fails, `postfix` is not run.
pub fn over<X, Y>(prefix: X, postfix: Y) -> (o: Over<X, Y>)
    ensures
        o == (Over { prefix, postfix }),
{
    Over { prefix, postfix }
}

impl<T, X, Y> Parser<T> for Over<X, Y> where X: Parser<T>, Y: Parser<T> {
    type Output = X::Output;

    open spec fn run(self, input: Stream<T>) -> Outcome<Self, T, X::Output> {
        let first = self.prefix.run(input);
        match first.result {
            Ok(value) => {
                let second = self.postfix.run(first.stream);
                Outcome {
                    parser: Over { prefix: first.parser, postfix: second.parser },
                    stream: second.stream,
                    result: match second.result {
                        Ok(_) => Ok(value),
                        Err(failure) => Err(failure),
                    },
                }
            },
            Err(failure) => Outcome {
                parser: Over { prefix: first.parser, postfix: self.postfix },
                stream: first.stream,
                result: Err(failure),
            },
        }
    }

    fn call_mut(&mut self, state: &mut VecState<T>) -> (status: Status<X::Output>) {
        match self.prefix.call_mut(state) {
            Ok(x) => match self.postfix.call_mut(state) {
                Ok(_) => Ok(x),
                Err(err) => Err(err),
            },
            Err(err) => Err(err),
        }
    }

    fn call_once(self, state: &mut VecState<T>) -> (status: Status<X::Output>) {
        let prefix = self.prefix;
        match prefix.call_once(state) {
            Ok(x) => {
                let postfix = self.postfix;
                match postfix.call_once(state) {
                    Ok(_) => Ok(x),
                    Err(err) => Err(err),
                }
            },
            Err(err) => Err(err),
        }
    }
}

impl<X, Y> Over<X, Y> {
    /// This sequence followed by `postfix`, keeping the value of this one.
    pub fn over<Q>(self, postfix: Q) -> (o: Over<Over<X, Y>, Q>)
        ensures
            o == (Over { prefix: self, postfix }),
    {
        Over { prefix: self, postfix }
    }

    /// This sequence followed by `postfix`, keeping the value of `postfix`.
    pub fn then<Q>(self, postfix: Q) -> (t: Then<Over<X, Y>, Q>)
        ensures
            t == (Then { prefix: self, postfix }),
    {
        Then { prefix: self, postfix }
    }

    /// This sequence followed by the parser that `binder` builds from its
    /// value.
    pub fn bind<G>(self, binder: G) -> (b: Bind<Over<X, Y>, G>)
        ensures
            b == (Bind { parsec: self, binder }),
    {
        Bind { parsec: self, binder }
    }
}

} // verus!
