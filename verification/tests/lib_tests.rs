//! The tests that sat beside the channel's code.

use sync_oneshot::{channel, Notify, Slot, TryRecvError};

#[test]
fn lib_test_local() {
    let test_inner = || {
        let (tx, rx) = channel();

        tx.send(5).unwrap();

        let result = rx.recv().unwrap();
        assert_eq!(result, 5);
    };

    test_inner();
}

#[test]
fn lib_test_rx_already_closed() {
    let test_inner = || {
        let (tx, rx) = channel();

        drop(rx);

        let result = tx.send(5);
        assert!(result.is_err());
    };

    test_inner();
}

#[test]
fn lib_test_tx_already_closed() {
    let test_inner = || {
        let (tx, rx) = channel::<i32>();
        drop(tx);

        assert!(rx.recv().is_err());
    };

    test_inner();
}

#[test]
fn lib_test_rx_close() {
    let test_inner = || {
        let (tx, mut rx) = channel::<i32>();

        rx.close();
        assert!(tx.send(5).is_err());
    };

    test_inner();
}

#[test]
fn lib_test_rx_recv_after_close() {
    let test_inner = || {
        let (_tx, mut rx) = channel::<i32>();

        rx.close();
        assert!(rx.recv().is_err());
    };

    test_inner();
}

#[test]
fn lib_test_rx_recv_after_send_and_close() {
    let test_inner = || {
        let (tx, mut rx) = channel();

        tx.send(5).unwrap();
        rx.close();

        assert_eq!(5, rx.recv().unwrap());
    };

    test_inner();
}

#[test]
fn lib_test_is_closed() {
    let test_inner = || {
        let (tx, mut rx) = channel::<i32>();
        rx.close();

        assert!(tx.is_closed());
    };

    test_inner();
}

#[test]
#[should_panic]
fn lib_recv_after_try_recv() {
    let test_inner = || {
        let (tx, mut rx) = channel();

        tx.send(5).unwrap();
        assert_eq!(rx.try_recv().unwrap(), 5);
        rx.recv().unwrap();
    };

    test_inner();
}

#[test]
fn lib_try_recv_after_close() {
    let test_inner = || {
        let (tx, mut rx) = channel::<i32>();

        drop(tx);
        assert_eq!(rx.try_recv(), Err(TryRecvError::Closed));
    };

    test_inner();
}

#[test]
fn lib_try_recv_empty() {
    let test_inner = || {
        let (_tx, mut rx) = channel::<i32>();

        assert_eq!(rx.try_recv(), Err(TryRecvError::Empty));
    };

    test_inner();
}

#[test]
fn lib_send_close_recv() {
    let test_inner = || {
        let (tx, mut rx) = channel();
        tx.send(5).unwrap();
        rx.close();
        assert_eq!(5, rx.try_recv().unwrap());

        let (tx, mut rx) = channel();
        tx.send(5).unwrap();
        rx.close();
        assert_eq!(5, rx.recv().unwrap());
    };

    test_inner();
}

#[test]
fn test() {
    let test_inner = || {
        let notify = Notify::new();
        notify.set_current();
        notify.notify();
    };

    test_inner();
}

#[test]
fn test_slot() {
    let test_inner = || {
        let slot = Slot::new();

        slot.set(5);

        let val = slot.take();
        assert_eq!(val, Some(5));
    };

    test_inner();
}
