//! What holds of the combinators on every parser and every stream, stated
//! over the model and proved from the definitions.

use vstd::prelude::*;
use crate::combinator::{Attempt, Bind, Either, Fail, Over, Pack, Then};
use crate::error::Failure;
use crate::parser::{Binder, Outcome, Parser};
use crate::state::Stream;

verus! {

/// `pack` never consumes and never fails: on every stream it succeeds with
/// its value and leaves the stream, and itself, as they were.
pub proof fn pack_never_consumes_never_fails<T, R>(p: Pack<R>, input: Stream<T>)
    ensures
        p.run(input) == (Outcome { parser: p, stream: input, result: Ok::<R, Failure>(*p.data) }),
{
}

/// `fail` never succeeds: on every stream it fails at the position of the
/// cursor with its message, and leaves the stream, and itself, as they
/// were.
pub proof fn fail_never_succeeds<T, R>(f: Fail<R>, input: Stream<T>)
    ensures
        f.run(input) == (Outcome {
            parser: f,
            stream: input,
            result: Err::<R, Failure>(Failure { pos: input.pos, message: f.msg@ }),
        }),
{
}

/// Where a parser fails, however far it has read, `attempt` of it fails
/// with the same error and leaves the cursor exactly where it stood before.
pub proof fn attempt_rewinds_on_failure<T, X: Parser<T>>(p: X, input: Stream<T>)
    requires
        p.run(input).result is Err,
    ensures
        (Attempt { parsec: p }).run(input).result == p.run(input).result,
        (Attempt { parsec: p }).run(input).stream == p.run(input).stream.at(input.pos),
        (Attempt { parsec: p }).run(input).stream.pos == input.pos,
{
}

/// Where a parser succeeds, `attempt` of it yields the same value and
/// leaves the stream as the parser itself does.
pub proof fn attempt_is_transparent_on_success<T, X: Parser<T>>(p: X, input: Stream<T>)
    requires
        p.run(input).result is Ok,
    ensures
        (Attempt { parsec: p }).run(input).result == p.run(input).result,
        (Attempt { parsec: p }).run(input).stream == p.run(input).stream,
{
}

/// Where `x` succeeds, `either` of `x` and `y` is `x`: same value, same
/// stream, and `y` is left untouched.
pub proof fn either_prefers_the_left<T, X, Y>(x: X, y: Y, input: Stream<T>) where
    X: Parser<T>,
    Y: Parser<T, Output = X::Output>,

    requires
        x.run(input).result is Ok,
    ensures
        (Either { x, y }).run(input).result == x.run(input).result,
        (Either { x, y }).run(input).stream == x.run(input).stream,
        (Either { x, y }).run(input).parser.y == y,
{
}

/// Where `x` fails at the position at which it started, `either` of `x` and
/// `y` gives what `y` gives from there: its result, success or failure, and
/// its stream.
pub proof fn either_falls_back_without_progress<T, X, Y>(x: X, y: Y, input: Stream<T>) where
    X: Parser<T>,
    Y: Parser<T, Output = X::Output>,

    requires
        x.run(input).result is Err,
        x.run(input).stream.pos == input.pos,
    ensures
        (Either { x, y }).run(input).result == y.run(x.run(input).stream).result,
        (Either { x, y }).run(input).stream == y.run(x.run(input).stream).stream,
{
}

/// Where `x` fails after having moved the cursor, `either` of `x` and `y`
/// fails with the error of `x` and leaves the stream as `x` left it,
/// whatever `y` is; `y` is left untouched.
pub proof fn either_locks_after_progress<T, X, Y>(x: X, y: Y, input: Stream<T>) where
    X: Parser<T>,
    Y: Parser<T, Output = X::Output>,

    requires
        x.run(input).result is Err,
        x.run(input).stream.pos != input.pos,
    ensures
        (Either { x, y }).run(input).result == x.run(input).result,
        (Either { x, y }).run(input).stream == x.run(input).stream,
        (Either { x, y }).run(input).parser.y == y,
{
}

/// Where `x` fails, however far it has read, `either` of `attempt` of `x`
/// and `y` gives what `y` gives from the position at which `x` started:
/// wrapped in `attempt`, every failure of a branch can be recovered from.
pub proof fn attempt_makes_alternation_backtrack<T, X, Y>(x: X, y: Y, input: Stream<T>) where
    X: Parser<T>,
    Y: Parser<T, Output = X::Output>,

    requires
        x.run(input).result is Err,
    ensures
        (Either { x: Attempt { parsec: x }, y }).run(input).result == y.run(
            x.run(input).stream.at(input.pos),
        ).result,
        (Either { x: Attempt { parsec: x }, y }).run(input).stream == y.run(
            x.run(input).stream.at(input.pos),
        ).stream,
{
}

/// Where `prefix` fails, `then` and `over` fail with its error and leave
/// the stream as `prefix` left it; `postfix` is not invoked, so it stands
/// afterwards as it stood before.
pub proof fn sequence_short_circuits<T, X, Y>(prefix: X, postfix: Y, input: Stream<T>) where
    X: Parser<T>,
    Y: Parser<T>,

    requires
        prefix.run(input).result is Err,
    ensures
        (Then { prefix, postfix }).run(input).result == Err::<Y::Output, Failure>(
            prefix.run(input).result->Err_0,
        ),
        (Then { prefix, postfix }).run(input).stream == prefix.run(input).stream,
        (Then { prefix, postfix }).run(input).parser.postfix == postfix,
        (Over { prefix, postfix }).run(input).result == prefix.run(input).result,
        (Over { prefix, postfix }).run(input).stream == prefix.run(input).stream,
        (Over { prefix, postfix }).run(input).parser.postfix == postfix,
{
}

/// Where `prefix` succeeds and `postfix` succeeds from where `prefix`
/// stopped, `over` yields the value of `prefix` and `then` the value of
/// `postfix`, and both leave the stream as `postfix` left it.
pub proof fn over_returns_left_then_returns_right<T, X, Y>(
    prefix: X,
    postfix: Y,
    input: Stream<T>,
) where X: Parser<T>, Y: Parser<T>
    requires
        prefix.run(input).result is Ok,
        postfix.run(prefix.run(input).stream).result is Ok,
    ensures
        (Over { prefix, postfix }).run(input).result == prefix.run(input).result,
        (Over { prefix, postfix }).run(input).stream == postfix.run(
            prefix.run(input).stream,
        ).stream,
        (Then { prefix, postfix }).run(input).result == postfix.run(
            prefix.run(input).stream,
        ).result,
        (Then { prefix, postfix }).run(input).stream == postfix.run(
            prefix.run(input).stream,
        ).stream,
{
}

/// Where `prefix` succeeds and `postfix` fails from where `prefix` stopped,
/// `then` and `over` fail with the error of `postfix` and leave the stream
/// as `postfix` left it: what `prefix` consumed is not given back.
pub proof fn sequence_does_not_backtrack<T, X, Y>(prefix: X, postfix: Y, input: Stream<T>) where
    X: Parser<T>,
    Y: Parser<T>,

    requires
        prefix.run(input).result is Ok,
        postfix.run(prefix.run(input).stream).result is Err,
    ensures
        (Then { prefix, postfix }).run(input).result == postfix.run(
            prefix.run(input).stream,
        ).result,
        (Then { prefix, postfix }).run(input).stream == postfix.run(
            prefix.run(input).stream,
        ).stream,
        (Over { prefix, postfix }).run(input).result == Err::<X::Output, Failure>(
            postfix.run(prefix.run(input).stream).result->Err_0,
        ),
        (Over { prefix, postfix }).run(input).stream == postfix.run(
            prefix.run(input).stream,
        ).stream,
{
}

/// Where `parsec` succeeds with a value, `bind` of `parsec` and `binder`
/// gives what the continuation of that very value gives from where `parsec`
/// stopped: its result and its stream.
pub proof fn bind_runs_the_continuation_of_the_value<T, X, F>(
    parsec: X,
    binder: F,
    input: Stream<T>,
) where X: Parser<T>, F: Binder<T, X::Output>
    requires
        parsec.run(input).result is Ok,
    ensures
        (Bind { parsec, binder }).run(input).result == binder.continuation(
            parsec.run(input).result->Ok_0,
        ).run(parsec.run(input).stream).result,
        (Bind { parsec, binder }).run(input).stream == binder.continuation(
            parsec.run(input).result->Ok_0,
        ).run(parsec.run(input).stream).stream,
        (Bind { parsec, binder }).run(input).parser.binder == binder,
{
}

/// Where `parsec` fails, `bind` of `parsec` and `binder` fails with its
/// error and leaves the stream as `parsec` left it, whatever `binder` is.
pub proof fn bind_propagates_failure<T, X, F>(parsec: X, binder: F, input: Stream<T>) where
    X: Parser<T>,
    F: Binder<T, X::Output>,

    requires
        parsec.run(input).result is Err,
    ensures
        (Bind { parsec, binder }).run(input).result == Err::<
            <F::Next as Parser<T>>::Output,
            Failure,
        >(parsec.run(input).result->Err_0),
        (Bind { parsec, binder }).run(input).stream == parsec.run(input).stream,
{
}

} // verus!
