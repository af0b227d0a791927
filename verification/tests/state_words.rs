//! The state word and what receivers make of it, on concrete values.
use sync_oneshot::state::{CLOSED, VALUE_SENT, WAITING};
use sync_oneshot::{Flags, Readiness, Received, RecvError, RecvTimeoutError, State, TryRecvError};

#[test]
fn fresh_state_has_no_flag() {
    let s = State::new();
    assert_eq!(s, State(0));
    assert!(!s.is_waiting());
    assert!(!s.is_complete());
    assert!(!s.is_closed());
    assert_eq!(s.readiness(), Readiness::Empty);
}

#[test]
fn flag_bits() {
    assert_eq!(WAITING, 1);
    assert_eq!(VALUE_SENT, 2);
    assert_eq!(CLOSED, 4);
    assert!(State(1).is_waiting() && !State(1).is_complete() && !State(1).is_closed());
    assert!(!State(2).is_waiting() && State(2).is_complete() && !State(2).is_closed());
    assert!(!State(4).is_waiting() && !State(4).is_complete() && State(4).is_closed());
    assert!(State(7).is_waiting() && State(7).is_complete() && State(7).is_closed());
}

#[test]
fn transitions_add_one_flag() {
    assert_eq!(State(0).with_waiting(), State(1));
    assert_eq!(State(2).with_waiting(), State(3));
    assert_eq!(State(0).with_closed(), State(4));
    assert_eq!(State(3).with_closed(), State(7));
    assert_eq!(State::complete_word(0), Some(2));
    assert_eq!(State::complete_word(1), Some(3));
    assert_eq!(State::complete_word(4), None);
    assert_eq!(State::complete_word(5), None);
}

#[test]
fn close_twice_is_close_once() {
    let once = State(1).with_closed();
    assert_eq!(once.with_closed(), once);
}

#[test]
fn no_send_after_close_whatever_follows() {
    let closed = State(0).with_closed();
    assert_eq!(State::complete_word(closed.0), None);
    assert_eq!(State::complete_word(closed.with_waiting().0), None);
}

#[test]
fn sent_wins_over_close() {
    assert_eq!(State(2).readiness(), Readiness::Sent);
    assert_eq!(State(2).with_closed().readiness(), Readiness::Sent);
    assert_eq!(State(4).readiness(), Readiness::Closed);
    assert_eq!(State(5).readiness(), Readiness::Closed);
    assert_eq!(State(1).readiness(), Readiness::Empty);
}

#[test]
fn flags_struct() {
    let f = Flags { waiting: true, complete: false, closed: true };
    assert_eq!(f, Flags { waiting: true, complete: false, closed: true });
}

#[test]
fn settle_each_case() {
    match Received::settle(State(2), Some(9)) {
        Received::Value(v) => assert_eq!(v, 9),
        _ => panic!("expected the stored value"),
    }
    assert!(matches!(Received::<i32>::settle(State(2), None), Received::Disconnected));
    assert!(matches!(Received::settle(State(4), Some(9)), Received::Disconnected));
    assert!(matches!(Received::settle(State(1), Some(9)), Received::Pending));
    assert!(matches!(Received::settle(State(6), Some(9)), Received::Value(9)));
}

#[test]
fn answers_of_each_method() {
    assert_eq!(Received::Value(3).into_try_recv(), Ok(3));
    assert_eq!(Received::<i32>::Disconnected.into_try_recv(), Err(TryRecvError::Closed));
    assert_eq!(Received::<i32>::Pending.into_try_recv(), Err(TryRecvError::Empty));
    assert_eq!(Received::Value(3).into_recv(), Ok(3));
    assert_eq!(Received::<i32>::Disconnected.into_recv(), Err(RecvError));
    assert_eq!(Received::<i32>::Pending.into_recv(), Err(RecvError));
    assert_eq!(Received::Value(3).into_timed(), Ok(3));
    assert_eq!(Received::<i32>::Disconnected.into_timed(), Err(RecvTimeoutError::Closed));
    assert_eq!(Received::<i32>::Pending.into_timed(), Err(RecvTimeoutError::Timeout));
}
