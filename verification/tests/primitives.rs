use std::sync::Arc;

use parsec::combinator::{attempt, fail, pack, Fail};
use parsec::{Parser, SimpleError, Status, VecState};

/// Reads one token and yields it where it is the expected one; a token that
/// is not expected is read all the same, and the parse fails after it.
struct Token(&'static str);

impl Parser<&'static str> for Token {
    type Output = &'static str;

    fn call_mut(&mut self, state: &mut VecState<&'static str>) -> Status<&'static str> {
        let pos = state.pos();
        match state.next() {
            Some(token) if *token == self.0 => Ok(Arc::new(*token)),
            _ => Err(SimpleError::new(pos, format!("expected {}", self.0))),
        }
    }

    fn call_once(mut self, state: &mut VecState<&'static str>) -> Status<&'static str> {
        self.call_mut(state)
    }
}

/// Reads a fixed number of tokens and then fails where it has arrived.
struct Stumble(usize);

impl Parser<&'static str> for Stumble {
    type Output = &'static str;

    fn call_mut(&mut self, state: &mut VecState<&'static str>) -> Status<&'static str> {
        for _ in 0..self.0 {
            state.next();
        }
        Err(SimpleError::new(state.pos(), String::from("stumbled")))
    }

    fn call_once(mut self, state: &mut VecState<&'static str>) -> Status<&'static str> {
        self.call_mut(state)
    }
}

fn letters() -> VecState<&'static str> {
    VecState::new(vec!["a", "b", "c", "d"])
}

#[test]
fn pack_succeeds_with_its_value_and_reads_nothing() {
    let mut state = letters();
    let mut p = pack(Arc::new(42));
    let status = p.call_mut(&mut state);
    assert_eq!(*status.unwrap(), 42);
    assert_eq!(state.pos(), 0);
}

#[test]
fn pack_succeeds_at_every_position() {
    let mut state = letters();
    let mut p = pack(Arc::new("v"));
    for pos in 0..6 {
        state.seek_to(pos);
        let status = p.call_mut(&mut state);
        assert_eq!(*status.unwrap(), "v");
        assert_eq!(state.pos(), pos);
    }
}

#[test]
fn pack_succeeds_on_an_empty_stream() {
    let mut state: VecState<u8> = VecState::new(Vec::new());
    let mut p = pack(Arc::new(7u8));
    assert_eq!(*p.call_mut(&mut state).unwrap(), 7u8);
    assert_eq!(state.pos(), 0);
}

#[test]
fn pack_shares_its_value_without_copying() {
    let data = Arc::new(String::from("shared"));
    let mut state = letters();
    let mut p = pack(data.clone());
    let first = p.call_mut(&mut state).unwrap();
    let second = p.call_mut(&mut state).unwrap();
    assert!(Arc::ptr_eq(&first, &data));
    assert!(Arc::ptr_eq(&second, &data));
    assert_eq!(*first, "shared");
    assert_eq!(Arc::strong_count(&data), 4);
}

#[test]
fn pack_call_once_gives_the_value() {
    let data = Arc::new(5);
    let mut state = letters();
    state.seek_to(2);
    let status = pack(data.clone()).call_once(&mut state);
    let value = status.unwrap();
    assert!(Arc::ptr_eq(&value, &data));
    assert_eq!(state.pos(), 2);
}

#[test]
fn fail_fails_at_the_current_position_with_its_message() {
    let mut state = letters();
    let mut f: Fail<u8> = fail(String::from("nothing here"));
    let error = f.call_mut(&mut state).unwrap_err();
    assert_eq!(error.pos(), 0);
    assert_eq!(error.message(), "nothing here");
    assert_eq!(state.pos(), 0);
}

#[test]
fn fail_reports_the_position_of_each_invocation() {
    let mut state = letters();
    let mut f: Fail<u8> = fail(String::from("m"));
    for pos in [3usize, 1, 4, 0] {
        state.seek_to(pos);
        let error = f.call_mut(&mut state).unwrap_err();
        assert_eq!(error.pos(), pos);
        assert_eq!(error.message(), "m");
        assert_eq!(state.pos(), pos);
    }
}

#[test]
fn fail_call_once_fails_too() {
    let mut state = letters();
    state.seek_to(2);
    let f: Fail<u8> = fail(String::from("once"));
    let error = f.call_once(&mut state).unwrap_err();
    assert_eq!(error.pos(), 2);
    assert_eq!(error.message(), "once");
    assert_eq!(state.pos(), 2);
}

#[test]
fn attempt_rewinds_a_failure_that_read_nothing() {
    let mut state = letters();
    state.seek_to(1);
    let mut p = attempt(Stumble(0));
    let error = p.call_mut(&mut state).unwrap_err();
    assert_eq!(error.pos(), 1);
    assert_eq!(error.message(), "stumbled");
    assert_eq!(state.pos(), 1);
}

#[test]
fn attempt_rewinds_a_failure_that_read_tokens() {
    let mut state = letters();
    state.seek_to(1);
    let mut bare = Stumble(2);
    let error = bare.call_mut(&mut state).unwrap_err();
    assert_eq!(error.pos(), 3);
    assert_eq!(state.pos(), 3);

    state.seek_to(1);
    let mut p = attempt(Stumble(2));
    let error = p.call_mut(&mut state).unwrap_err();
    assert_eq!(error.pos(), 3);
    assert_eq!(error.message(), "stumbled");
    assert_eq!(state.pos(), 1);
}

#[test]
fn attempt_rewinds_a_mismatch() {
    let mut state = letters();
    let mut p = attempt(Token("z"));
    let error = p.call_mut(&mut state).unwrap_err();
    assert_eq!(error.pos(), 0);
    assert_eq!(error.message(), "expected z");
    assert_eq!(state.pos(), 0);
}

#[test]
fn attempt_is_transparent_on_success() {
    let mut direct = letters();
    let mut wrapped = letters();
    let plain = Token("a").call_mut(&mut direct).unwrap();
    let tried = attempt(Token("a")).call_mut(&mut wrapped).unwrap();
    assert_eq!(*plain, "a");
    assert_eq!(*tried, "a");
    assert_eq!(direct.pos(), 1);
    assert_eq!(wrapped.pos(), 1);
}

#[test]
fn attempt_call_once_rewinds_a_failure() {
    let mut state = letters();
    state.seek_to(1);
    let error = attempt(Stumble(3)).call_once(&mut state).unwrap_err();
    assert_eq!(error.pos(), 4);
    assert_eq!(state.pos(), 1);
}

#[test]
fn attempt_call_once_keeps_a_success() {
    let mut state = letters();
    let value = attempt(Token("a")).call_once(&mut state).unwrap();
    assert_eq!(*value, "a");
    assert_eq!(state.pos(), 1);
}

#[test]
fn attempt_can_be_invoked_again() {
    let mut state = letters();
    let mut p = attempt(Token("b"));
    assert!(p.call_mut(&mut state).is_err());
    assert_eq!(state.pos(), 0);
    state.next();
    assert_eq!(*p.call_mut(&mut state).unwrap(), "b");
    assert_eq!(state.pos(), 2);
}
