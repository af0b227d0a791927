//! More of the channel, the slot and the wake-up mechanism.
use std::time::{Duration, Instant};

use sync_oneshot::{channel, Notify, RecvTimeoutError, Slot, TryRecvError};

#[test]
fn send_hands_back_the_value_when_refused() {
    let (tx, mut rx) = channel::<String>();
    rx.close();
    assert_eq!(tx.send("kept".to_string()), Err("kept".to_string()));
}

#[test]
fn received_value_is_the_sent_value() {
    let (tx, rx) = channel::<Vec<u8>>();
    assert_eq!(tx.send(vec![1, 2, 3]), Ok(()));
    assert_eq!(rx.recv(), Ok(vec![1, 2, 3]));
}

#[test]
fn is_closed_before_and_after_drop() {
    let (tx, rx) = channel::<i32>();
    assert!(!tx.is_closed());
    drop(rx);
    assert!(tx.is_closed());
    assert_eq!(tx.send(1), Err(1));
}

#[test]
fn close_twice_then_send_fails() {
    let (tx, mut rx) = channel::<i32>();
    rx.close();
    rx.close();
    assert!(tx.is_closed());
    assert_eq!(tx.send(1), Err(1));
    assert_eq!(rx.try_recv(), Err(TryRecvError::Closed));
}

#[test]
fn try_recv_after_value_is_done() {
    let (tx, mut rx) = channel::<i32>();
    assert_eq!(rx.try_recv(), Err(TryRecvError::Empty));
    tx.send(4).unwrap();
    assert_eq!(rx.try_recv(), Ok(4));
    assert_eq!(rx.try_recv(), Err(TryRecvError::Closed));
    rx.close();
}

#[test]
fn timeout_then_value() {
    let (tx, mut rx) = channel::<i32>();
    assert_eq!(rx.recv_timeout(Duration::from_millis(10)), Err(RecvTimeoutError::Timeout));
    tx.send(8).unwrap();
    assert_eq!(rx.recv_timeout(Duration::from_millis(10)), Ok(8));
    assert_eq!(rx.recv_timeout(Duration::from_millis(10)), Err(RecvTimeoutError::Closed));
}

#[test]
fn timeout_then_blocking_recv() {
    let (tx, mut rx) = channel::<i32>();
    assert_eq!(rx.recv_timeout(Duration::ZERO), Err(RecvTimeoutError::Timeout));
    tx.send(6).unwrap();
    assert_eq!(rx.recv(), Ok(6));
}

#[test]
fn sender_dropped_after_timeout() {
    let (tx, mut rx) = channel::<i32>();
    assert_eq!(rx.recv_timeout(Duration::from_millis(5)), Err(RecvTimeoutError::Timeout));
    drop(tx);
    assert_eq!(rx.recv_timeout(Duration::from_millis(5)), Err(RecvTimeoutError::Closed));
    assert_eq!(rx.try_recv(), Err(TryRecvError::Closed));
}

#[test]
fn deadline_in_the_past_with_value() {
    let (tx, mut rx) = channel::<i32>();
    let past = Instant::now();
    tx.send(2).unwrap();
    assert_eq!(rx.recv_deadline(past), Ok(2));
}

#[test]
fn receiver_dropped_with_value_inside() {
    let (tx, rx) = channel::<String>();
    tx.send("dropped with the receiver".to_string()).unwrap();
    drop(rx);
}

#[test]
fn slot_take_empties() {
    let slot = Slot::new();
    assert_eq!(slot.take(), None::<i32>);
    assert_eq!(slot.set(1), Ok(()));
    assert_eq!(slot.set(2), Ok(()));
    assert_eq!(slot.take(), Some(2));
    assert_eq!(slot.take(), None);
}

#[test]
fn notify_wakes_the_registered_parker() {
    let notify = Notify::new();
    let parker = notify.set_current();
    notify.notify();
    // The wake-up is already queued, so this returns at once.
    parker.park();
}

#[test]
fn notify_without_registration_is_harmless() {
    let notify = Notify::new();
    notify.notify();
    let parker = notify.set_current();
    let start = Instant::now();
    parker.park_timeout(Duration::from_millis(30));
    assert!(start.elapsed() >= Duration::from_millis(30));
}

#[test]
fn new_registration_replaces_old() {
    let notify = Notify::new();
    let old = notify.set_current();
    let new = notify.set_current();
    notify.notify();
    new.park();
    let start = Instant::now();
    old.park_timeout(Duration::from_millis(20));
    assert!(start.elapsed() < Duration::from_secs(5));
}

fn assert_send_sync<X: Send + Sync>() {}

#[test]
fn handles_can_move_between_threads() {
    assert_send_sync::<sync_oneshot::Sender<String>>();
    assert_send_sync::<sync_oneshot::Receiver<String>>();
}

#[test]
fn handles_print() {
    let (tx, rx) = channel::<i32>();
    assert!(format!("{:?}", tx).starts_with("Sender"));
    assert!(format!("{:?}", rx).starts_with("Receiver"));
}
