//! Waking a blocked receiver.
//!
//! The receiver registers itself before it announces that it waits: it opens a
//! fresh wake-up channel, leaves the sending end here and keeps the receiving
//! end (its `Parker`). The sender, once it sees the announcement, takes the
//! sending end out and sends one wake-up through it.
use crate::sync::{
    guard_replace, mutex_new, mutex_try_lock, wake_channel, wake_recv,
    wake_recv_timeout, wake_send,
};
use vstd::prelude::*;

verus! {

/// Where the receiver leaves the means to wake it.
#[derive(Debug)]
pub struct Notify {
    thread: std::sync::Mutex<Option<std::sync::mpsc::Sender<()>>>,
}

/// The receiving end of a registration: blocking on it waits for the wake-up.
#[derive(Debug)]
pub struct Parker {
    wakeups: std::sync::mpsc::Receiver<()>,
}

impl Notify {
    /// Nobody registered yet.
    pub fn new() -> Notify {
        Notify { thread: mutex_new(None) }
    }

    /// Registers the calling thread as the one to wake, replacing an earlier
    /// registration, and returns what it blocks on. Never blocks: the only
    /// other user of the registration is a sender that is waking, which it
    /// does only after its completion; the receiver's announcement that it
    /// waits then fails, so it does not block on a registration skipped here.
    pub fn set_current(&self) -> Parker {
        let (waker, wakeups) = wake_channel();
        let _replaced = match mutex_try_lock(&self.thread) {
            Some(mut guard) => guard_replace(&mut guard, Some(waker)),
            None => None,
        };
        Parker { wakeups }
    }

    /// Wakes the registered thread, if any, and clears the registration. Never
    /// blocks: if the receiver is registering itself at this very moment, it
    /// has not announced that it waits yet, and it re-reads the state before
    /// it blocks.
    pub fn notify(&self)
        opens_invariants none
        no_unwind
    {
        let registered = match mutex_try_lock(&self.thread) {
            Some(mut guard) => guard_replace(&mut guard, None),
            None => None,
        };
        if let Some(waker) = registered {
            wake_send(waker);
        }
    }
}

impl Parker {
    /// Blocks until the registered thread is woken.
    pub fn park(&self) {
        wake_recv(&self.wakeups);
    }

    /// Blocks until the registered thread is woken or `timeout` has passed.
    pub fn park_timeout(&self, timeout: std::time::Duration) {
        wake_recv_timeout(&self.wakeups, timeout);
    }
}

} // verus!
