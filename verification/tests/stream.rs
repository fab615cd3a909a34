use parsec::{SimpleError, VecState};

#[test]
fn new_state_starts_at_zero() {
    let state = VecState::new(vec!["a", "b"]);
    assert_eq!(state.pos(), 0);
}

#[test]
fn next_reads_tokens_in_order_and_advances() {
    let mut state = VecState::new(vec!["a", "b"]);
    assert_eq!(state.next(), Some(&"a"));
    assert_eq!(state.pos(), 1);
    assert_eq!(state.next(), Some(&"b"));
    assert_eq!(state.pos(), 2);
}

#[test]
fn next_at_the_end_reads_nothing_and_stays() {
    let mut state = VecState::new(vec![7u8]);
    assert_eq!(state.next(), Some(&7u8));
    assert_eq!(state.next(), None);
    assert_eq!(state.pos(), 1);
    assert_eq!(state.next(), None);
    assert_eq!(state.pos(), 1);
}

#[test]
fn next_on_an_empty_stream_reads_nothing() {
    let mut state: VecState<u8> = VecState::new(Vec::new());
    assert_eq!(state.next(), None);
    assert_eq!(state.pos(), 0);
}

#[test]
fn seek_to_restores_an_observed_position() {
    let mut state = VecState::new(vec![1u8, 2, 3]);
    state.next();
    let mark = state.pos();
    state.next();
    state.next();
    assert_eq!(state.pos(), 3);
    state.seek_to(mark);
    assert_eq!(state.pos(), 1);
    assert_eq!(state.next(), Some(&2u8));
}

#[test]
fn seek_to_is_idempotent() {
    let mut state = VecState::new(vec![1u8, 2, 3]);
    state.next();
    state.next();
    state.seek_to(1);
    state.seek_to(1);
    assert_eq!(state.pos(), 1);
    assert_eq!(state.next(), Some(&2u8));
}

#[test]
fn seek_to_the_end_leaves_nothing_to_read() {
    let mut state = VecState::new(vec![1u8, 2, 3]);
    state.seek_to(3);
    assert_eq!(state.pos(), 3);
    assert_eq!(state.next(), None);
}

#[test]
fn seek_to_beyond_the_end_reads_nothing_and_stays() {
    let mut state = VecState::new(vec![1u8, 2, 3]);
    state.seek_to(10);
    assert_eq!(state.pos(), 10);
    assert_eq!(state.next(), None);
    assert_eq!(state.pos(), 10);
}

#[test]
fn error_keeps_position_and_message() {
    let error = SimpleError::new(3, String::from("unexpected token"));
    assert_eq!(error.pos(), 3);
    assert_eq!(error.message(), "unexpected token");
}

#[test]
fn error_with_empty_message() {
    let error = SimpleError::new(0, String::new());
    assert_eq!(error.pos(), 0);
    assert_eq!(error.message(), "");
}
