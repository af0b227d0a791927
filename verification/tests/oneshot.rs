//! The channel seen from outside.
use std::time::{Duration, Instant};

use sync_oneshot::{channel, RecvTimeoutError, TryRecvError};

#[test]
fn oneshot_test_local() {
    let test_inner = || {
        let (tx, rx) = channel();

        tx.send(5).unwrap();

        let result = rx.recv().unwrap();
        assert_eq!(result, 5);
    };

    test_inner();
}

#[test]
fn oneshot_test_rx_already_closed() {
    let test_inner = || {
        let (tx, rx) = channel();

        drop(rx);

        let result = tx.send(5);
        assert!(result.is_err());
    };

    test_inner();
}

#[test]
fn oneshot_test_tx_already_closed() {
    let test_inner = || {
        let (tx, rx) = channel::<i32>();
        drop(tx);

        assert!(rx.recv().is_err());
    };

    test_inner();
}

#[test]
fn oneshot_test_rx_close() {
    let test_inner = || {
        let (tx, mut rx) = channel::<i32>();

        rx.close();
        assert!(tx.send(5).is_err());
    };

    test_inner();
}

#[test]
fn oneshot_test_rx_recv_after_close() {
    let test_inner = || {
        let (_tx, mut rx) = channel::<i32>();

        rx.close();
        assert!(rx.recv().is_err());
    };

    test_inner();
}

#[test]
fn oneshot_test_rx_recv_after_send_and_close() {
    let test_inner = || {
        let (tx, mut rx) = channel();

        tx.send(5).unwrap();
        rx.close();

        assert_eq!(5, rx.recv().unwrap());
    };

    test_inner();
}

#[test]
fn oneshot_test_is_closed() {
    let test_inner = || {
        let (tx, mut rx) = channel::<i32>();
        rx.close();

        assert!(tx.is_closed());
    };

    test_inner();
}

#[test]
#[should_panic]
fn oneshot_recv_after_try_recv() {
    let test_inner = || {
        let (tx, mut rx) = channel();

        tx.send(5).unwrap();
        assert_eq!(rx.try_recv().unwrap(), 5);
        rx.recv().unwrap();
    };

    test_inner();
}

#[test]
fn oneshot_try_recv_after_close() {
    let test_inner = || {
        let (tx, mut rx) = channel::<i32>();

        drop(tx);
        assert_eq!(rx.try_recv(), Err(TryRecvError::Closed));
    };

    test_inner();
}

#[test]
fn oneshot_try_recv_empty() {
    let test_inner = || {
        let (_tx, mut rx) = channel::<i32>();

        assert_eq!(rx.try_recv(), Err(TryRecvError::Empty));
    };

    test_inner();
}

#[test]
fn oneshot_send_close_recv() {
    let test_inner = || {
        let (tx, mut rx) = channel();
        tx.send(5).unwrap();
        rx.close();
        assert_eq!(5, rx.try_recv().unwrap());

        let (tx, mut rx) = channel();
        tx.send(5).unwrap();
        rx.close();
        assert_eq!(5, rx.recv().unwrap());
    };

    test_inner();
}

#[test]
fn recv_deadline_ok() {
    let (tx, mut rx) = channel::<i32>();
    tx.send(5).unwrap();

    let res = rx.recv_deadline(Instant::now()).unwrap();
    assert_eq!(res, 5);
}

#[test]
fn recv_deadline_closed() {
    let (_tx, mut rx) = channel::<i32>();

    rx.close();

    match rx.recv_deadline(Instant::now()) {
        Err(RecvTimeoutError::Closed) => {}
        _ => panic!("expected Closed Error"),
    }
}

#[test]
fn send_never_deadline() {
    let (tx, mut rx) = channel::<i32>();
    std::mem::drop(tx);

    match rx.recv_deadline(Instant::now()) {
        Err(RecvTimeoutError::Closed) => {}
        _ => panic!("expected Closed Error"),
    }
}

#[test]
fn recv_no_timeout() {
    let (_tx, mut rx) = channel::<i32>();

    match rx.recv_deadline(Instant::now()) {
        Err(RecvTimeoutError::Timeout) => {}
        _ => panic!("expected Timeout Error"),
    }
}

#[test]
fn recv_deadline_pass() {
    let (_tx, mut rx) = channel::<i32>();

    let time = Instant::now();
    let timeout = Duration::from_millis(100);

    match rx.recv_deadline(time + timeout) {
        Err(RecvTimeoutError::Timeout) => {}
        _ => panic!("expected Timeout Error"),
    }

    assert!(time.elapsed() >= timeout);
}
