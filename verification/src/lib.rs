//! A minimal oneshot channel for synchronous Rust.
//!
//! A oneshot channel is used for sending a single message between threads.
//! The [`channel`] function is used to create a [`Sender`] and [`Receiver`]
//! handle pair that form the channel.
//!
//! The [`Sender`] handle is used by the producer to send the value.
//! The [`Receiver`] handle is used by the consumer to receive the value.
//!
//! Each handle can be used on other threads.
//!
//! [`Sender::send`] will not block the calling thread.
//! [`Receiver::recv`] will **block** the calling thread.
//!
//! The protocol lives in one state word ([`State`]); every write to it is one
//! of the [`Transition`]s, and the laws in [`state`] hold of any sequence of
//! them.
mod error;
mod notify;
pub mod received;
mod slot;
pub mod state;
mod sync;

pub use error::{RecvError, RecvTimeoutError, TryRecvError};
pub use notify::{Notify, Parker};
pub use received::Received;
pub use slot::Slot;
pub use state::{Flags, Readiness, State, Transition};

use crate::received::{settled, timed_answer, try_recv_answer};
use crate::state::{next_count, readiness_of};
use crate::sync::{fetch_or, fetch_update_complete, instant_now, time_until};
use std::sync::atomic::Ordering;
use std::sync::Arc;
use vstd::prelude::*;

verus! {

/// Creates a new oneshot channel, returning the sender/receiver halves.
///
/// The [`Sender`] is used by the producer to send the value.
/// The [`Receiver`] handle is used by the consumer to receive the value.
///
/// [`send`](Sender::send) will not block the calling thread. [`recv`](Receiver::recv)
/// will **block** until a message is available.
pub fn channel<T>() -> (r: (Sender<T>, Receiver<T>))
    ensures
        r.0.is_attached(),
        r.1.is_attached(),
        shares_channel(&r.0, &r.1),
{
    let inner = Arc::new(
        Inner {
            state: std::sync::atomic::AtomicUsize::new(State::new().0),
            value: Slot::new(),
            notify: Notify::new(),
        },
    );
    (
        Sender { inner: Some(inner.clone()) },
        Receiver { inner: Some(inner), seen: State::new(), reads: 0, blocks: 0 },
    )
}

/// True when `tx` and `rx` hold equal shared state: spec equality of the two
/// `Arc`s compares what they point to, so this says the two ends were made
/// from one `Inner` value, not that the `Arc`s point to one allocation.
pub closed spec fn shares_channel<T>(tx: &Sender<T>, rx: &Receiver<T>) -> bool {
    tx.inner == rx.inner
}

/// Sends a value to the associated [`Receiver`].
///
/// This is created by the [`channel`] function.
/// Messages can be sent using [`send`](Sender::send).
#[derive(Debug)]
#[verifier::reject_recursive_types(T)]
pub struct Sender<T> {
    inner: Option<Arc<Inner<T>>>,
}

/// Receive a value from the associated [`Sender`].
///
/// This is created by the [`channel`] function.
/// Messages sent to the channel can be retrieved using [`recv`](Receiver::recv).
/// [`recv`](Receiver::recv) method blocks thread.
#[derive(Debug)]
#[verifier::reject_recursive_types(T)]
pub struct Receiver<T> {
    inner: Option<Arc<Inner<T>>>,
    /// The state word as this receiver last saw it: the word it last read, or
    /// the word its close left.
    seen: State,
    /// How many times it has looked at the state word (wrapping).
    reads: usize,
    /// How many times it has blocked (wrapping).
    blocks: usize,
}

/*
 *
 * ===== impl Sender =====
 *
 */
impl<T> Sender<T> {
    /// True while the sender still owns its end of the channel: from
    /// [`channel`] until it sends or is dropped.
    pub closed spec fn is_attached(&self) -> bool {
        self.inner is Some
    }

    /// Attempts to send a value on this channel, returning it back if it could not be sent.
    ///
    /// A successful send occurs when it is determined that the other end of the
    /// channel has not hung up already. An unsuccessful send would be one where
    /// the corresponding receiver has already been deallocated or closed. Note that a
    /// return value of [`Err`] means that the data will never be received, but
    /// a return value of [`Ok`] does *not* mean that the data will be received.
    /// It is possible for the corresponding receiver to hang up immediately
    /// after this function returns [`Ok`].
    ///
    /// This method will never block the current thread.
    pub fn send(self, value: T) -> Result<(), T>
        requires
            self.is_attached(),
    {
        let mut this = self;
        let inner = this.inner.take().unwrap();
        let (sent, _delivery) = inner.deliver(value);
        sent
    }

    /// Returns true if the associated Receiver handle has been dropped.
    /// A Receiver is closed by either calling close explicitly or the Receiver value is dropped.
    /// If true is returned, a call to send will always result in an error.
    pub fn is_closed(&self) -> bool
        requires
            self.is_attached(),
    {
        let inner = self.inner.as_ref().unwrap();
        inner.load().is_closed()
    }
}

impl<T> Drop for Sender<T> {
    fn drop(&mut self)
        opens_invariants none
        no_unwind
    {
        if let Some(inner) = &self.inner {
            let prev = match inner.set_complete() {
                Ok(prev) => prev,
                Err(prev) => prev,
            };
            if prev.is_waiting() {
                inner.notify.notify();
            }
        }
    }
}

/*
 *
 * ===== impl Receiver =====
 *
 */
impl<T> Receiver<T> {
    /// True while the receiver still owns its end of the channel: from
    /// [`channel`] until a receive ends with a value or a disconnection.
    pub closed spec fn is_attached(&self) -> bool {
        self.inner is Some
    }

    /// Attempts to wait for a value on this receiver, returning an error if
    /// the corresponding channel has hung up.
    ///
    /// This function will always block the current thread if there is no data
    /// available. Once a message is sent to the corresponding [`Sender`],
    /// this receiver will wake up and return that message.
    ///
    /// If the corresponding [`Sender`] has disconnected, or it disconnects while
    /// this call is blocking, this call will wake up and return [`Err`] to
    /// indicate that no more messages can ever be received on this channel.
    pub fn recv(self) -> Result<T, RecvError>
        requires
            self.is_attached(),
    {
        let mut this = self;
        let got = this.receive(None);
        this.inner = None;
        // A wake-up is sent only after the sender's completion attempt, and
        // after that attempt the state is never empty again
        // (`state::lemma_after_completion_never_empty`); were it so, no value
        // could be taken, and the receive fails.
        got.into_recv()
    }

    /// Attempts to return a pending value on this receiver without blocking.
    ///
    /// This method will never block the caller in order to wait for data to
    /// become available. Instead, this will always return immediately with a
    /// possible option of pending data on the channel.
    ///
    /// Compared with recv, this function has two failure cases instead of one
    /// (one for disconnection, one for an empty buffer). Unless it reports
    /// [`TryRecvError::Empty`], the receiver is done with the channel afterwards.
    pub fn try_recv(&mut self) -> (r: Result<T, TryRecvError>)
        ensures
            !old(self).is_attached() ==> r == Err::<T, TryRecvError>(TryRecvError::Closed),
            final(self).is_attached() == (old(self).is_attached() && r == Err::<T, TryRecvError>(TryRecvError::Empty)),
            !old(self).is_attached() ==> unchanged_record(&*old(self), &*final(self)),
            old(self).is_attached() ==> {
                &&& final(self).reads() == next_count(old(self).reads())
                &&& final(self).blocks() == old(self).blocks()
                &&& exists|taken: Option<T>| r == try_recv_answer(settled(final(self).last_seen(), taken))
            },
    {
        let got = if self.inner.is_some() {
            let seen = self.read();
            self.look(seen)
        } else {
            Received::Disconnected
        };
        if let Received::Pending = got {
            return Err(TryRecvError::Empty);
        }
        self.inner = None;
        got.into_try_recv()
    }

    /// Waits for a value for at most `timeout`.
    ///
    /// Returns [`RecvTimeoutError::Timeout`] if nothing was sent in time (the
    /// receiver can try again) and [`RecvTimeoutError::Closed`] if no value will
    /// ever come. Unless it times out, the receiver is done with the channel
    /// afterwards.
    pub fn recv_timeout(&mut self, timeout: std::time::Duration) -> (r: Result<T, RecvTimeoutError>)
        ensures
            !old(self).is_attached() ==> r == Err::<T, RecvTimeoutError>(RecvTimeoutError::Closed),
            final(self).is_attached() == (old(self).is_attached() && r == Err::<T, RecvTimeoutError>(RecvTimeoutError::Timeout)),
            !old(self).is_attached() ==> unchanged_record(&*old(self), &*final(self)),
            old(self).is_attached() ==> {
                &&& received_once(&*old(self), &*final(self))
                &&& exists|taken: Option<T>| r == timed_answer(settled(final(self).last_seen(), taken))
            },
    {
        let got = if self.inner.is_some() {
            self.receive(Some(timeout))
        } else {
            Received::Disconnected
        };
        if let Received::Pending = got {
            return Err(RecvTimeoutError::Timeout);
        }
        self.inner = None;
        got.into_timed()
    }

    /// Waits for a value until `deadline`; see [`recv_timeout`](Receiver::recv_timeout).
    pub fn recv_deadline(&mut self, deadline: std::time::Instant) -> (r: Result<T, RecvTimeoutError>)
        ensures
            !old(self).is_attached() ==> r == Err::<T, RecvTimeoutError>(RecvTimeoutError::Closed),
            final(self).is_attached() == (old(self).is_attached() && r == Err::<T, RecvTimeoutError>(RecvTimeoutError::Timeout)),
            !old(self).is_attached() ==> unchanged_record(&*old(self), &*final(self)),
            old(self).is_attached() ==> {
                &&& received_once(&*old(self), &*final(self))
                &&& exists|taken: Option<T>| r == timed_answer(settled(final(self).last_seen(), taken))
            },
    {
        let timeout = time_until(deadline, instant_now());
        self.recv_timeout(timeout)
    }

    /// Prevents the associated [`Sender`] handle from sending a value.
    ///
    /// Any `send` operation which happens after calling `close` is guaranteed
    /// to fail. After calling `close`, [`try_recv`](Receiver::try_recv) should be called to
    /// receive a value if one was sent **before** the call to `close`
    /// completed.
    ///
    /// `close` is no-op if a message is already received or the channel
    /// is already closed.
    pub fn close(&mut self)
        ensures
            final(self).is_attached() == old(self).is_attached(),
            !old(self).is_attached() ==> unchanged_record(&*old(self), &*final(self)),
            old(self).is_attached() ==> {
                &&& final(self).last_seen().closed
                &&& final(self).reads() == next_count(old(self).reads())
                &&& final(self).blocks() == old(self).blocks()
            },
    {
        let written = match &self.inner {
            Some(inner) => Some(inner.set_close().with_closed()),
            None => None,
        };
        if let Some(word) = written {
            self.seen = word;
            self.reads = count_up(self.reads);
        }
    }

    /// The state word as this receiver last saw it: the word it last read, or
    /// the word its close left.
    pub closed spec fn last_seen(&self) -> Flags {
        self.seen@
    }

    /// How many times this receiver has looked at, or closed, the state word
    /// (wrapping).
    pub closed spec fn reads(&self) -> usize {
        self.reads
    }

    /// How many times this receiver has blocked (wrapping).
    pub closed spec fn blocks(&self) -> usize {
        self.blocks
    }

    /// Reads the state word, and records it.
    fn read(&mut self) -> (s: State)
        requires
            old(self).is_attached(),
        ensures
            final(self).inner == old(self).inner,
            final(self).last_seen() == s@,
            final(self).reads() == next_count(old(self).reads()),
            final(self).blocks() == old(self).blocks(),
    {
        let s = match &self.inner {
            Some(inner) => inner.load(),
            None => State::new(),
        };
        self.seen = s;
        self.reads = count_up(self.reads);
        s
    }

    /// Blocks until woken (or `timeout` passes), having found the channel
    /// empty in `seen`; records the state it reads afterwards.
    fn block(&mut self, seen: State, timeout: Option<std::time::Duration>) -> (s: State)
        requires
            old(self).is_attached(),
        ensures
            final(self).inner == old(self).inner,
            final(self).last_seen() == s@,
            final(self).reads() == next_count(old(self).reads()),
            final(self).blocks() == next_count(old(self).blocks()),
    {
        let s = match &self.inner {
            Some(inner) => inner.wait(seen, timeout),
            None => seen,
        };
        self.seen = s;
        self.reads = count_up(self.reads);
        self.blocks = count_up(self.blocks);
        s
    }

    /// What this receiver finds in the state `seen`.
    fn look(&self, seen: State) -> (r: Received<T>)
        requires
            self.is_attached(),
        ensures
            exists|taken: Option<T>| r == settled(seen@, taken),
    {
        match &self.inner {
            Some(inner) => inner.observe(seen),
            None => Received::settle(seen, None),
        }
    }

    /// One receive: look at the state; if it is empty, block once and look
    /// again. The answer is what the last look found.
    fn receive(&mut self, timeout: Option<std::time::Duration>) -> (r: Received<T>)
        requires
            old(self).is_attached(),
        ensures
            final(self).inner == old(self).inner,
            received_once(&*old(self), &*final(self)),
            exists|taken: Option<T>| r == settled(final(self).last_seen(), taken),
    {
        let seen = self.read();
        match self.look(seen) {
            Received::Pending => {
                let after = self.block(seen, timeout);
                self.look(after)
            },
            got => got,
        }
    }
}

/// The record of `before` and `after` is the same.
pub open spec fn unchanged_record<T>(before: &Receiver<T>, after: &Receiver<T>) -> bool {
    &&& after.last_seen() == before.last_seen()
    &&& after.reads() == before.reads()
    &&& after.blocks() == before.blocks()
}

/// From `before` to `after` the receiver made one receive: it looked once and
/// found the channel not empty, or it looked, found it empty, blocked once and
/// looked again.
pub open spec fn received_once<T>(before: &Receiver<T>, after: &Receiver<T>) -> bool {
    ||| {
        &&& after.blocks() == before.blocks()
        &&& after.reads() == next_count(before.reads())
        &&& readiness_of(after.last_seen()) != Readiness::Empty
    }
    ||| {
        &&& after.blocks() == next_count(before.blocks())
        &&& after.reads() == next_count(next_count(before.reads()))
    }
}

impl<T> Drop for Receiver<T> {
    fn drop(&mut self)
        opens_invariants none
        no_unwind
    {
        // A receiver still attached never took the value: close the channel,
        // and drop the value if one was sent (the sender stored it before it
        // completed, and no longer touches the slot).
        if let Some(inner) = &self.inner {
            let prev = inner.set_close();
            if prev.is_complete() {
                let _ = inner.value.take();
            }
        }
    }
}

/// What a send found (kept for its contract only).
pub struct Delivery {
    /// The slot accepted the value.
    pub stored: bool,
    /// The state the completion replaced, or found closed.
    pub prev: Flags,
    /// Taking the value back found the slot empty.
    pub slot_empty: bool,
    /// The receiver was woken.
    pub woke: bool,
}

/// `n + 1`, wrapping to 0.
fn count_up(n: usize) -> (r: usize)
    ensures
        r == next_count(n),
{
    if n == usize::MAX {
        0
    } else {
        n + 1
    }
}

/*
 *
 * ===== impl Inner =====
 *
 */
#[derive(Debug)]
#[verifier::reject_recursive_types(T)]
struct Inner<T> {
    state: std::sync::atomic::AtomicUsize,
    value: Slot<T>,
    notify: Notify,
}

impl<T> Inner<T> {
    /// Reads the state word.
    fn load(&self) -> State {
        State(self.state.load(Ordering::Acquire))
    }

    /// The sender's completion: adds `VALUE_SENT` unless the receiver has
    /// closed. `Ok` holds the state it replaced, `Err` the closed state it found.
    fn set_complete(&self) -> (r: Result<State, State>)
        ensures
            r matches Ok(prev) ==> !prev@.closed,
            r matches Err(prev) ==> prev@.closed,
        opens_invariants none
        no_unwind
    {
        match fetch_update_complete(&self.state) {
            Ok(prev) => Ok(State(prev)),
            Err(prev) => Err(State(prev)),
        }
    }

    /// The sender's send: stores `value`, then completes, and wakes the
    /// receiver if it waits; if the completion is refused, takes the value
    /// back. The record says what it found: whether the store took, the state
    /// the completion replaced or found closed, whether the take-back found
    /// the slot empty, and whether it woke the receiver.
    fn deliver(&self, value: T) -> (r: (Result<(), T>, Ghost<Delivery>))
        ensures
            !r.1@.stored ==> r.0 == Err::<(), T>(value),
            r.1@.stored && !r.1@.prev.closed ==> {
                &&& r.0 == Ok::<(), T>(())
                &&& r.1@.woke == r.1@.prev.waiting
            },
            r.1@.stored && r.1@.prev.closed ==> (r.0 is Err || r.1@.slot_empty),
    {
        // Store first, then complete: a receiver that sees the completion
        // finds the value in the slot. Before the completion nobody else
        // touches the slot, so the store finds it free.
        match self.value.set(value) {
            Err(v) => (Err(v), Ghost(Delivery { stored: false, prev: state::flags_of(0), slot_empty: false, woke: false })),
            Ok(()) => match self.set_complete() {
                Ok(prev) => {
                    let woke = prev.is_waiting();
                    if woke {
                        self.notify.notify();
                    }
                    (Ok(()), Ghost(Delivery { stored: true, prev: prev@, slot_empty: false, woke }))
                },
                // The receiver closed first, so it never touches the slot:
                // the value is taken back and handed back. (The take always
                // finds it; were the slot busy or empty, there would be
                // nothing to hand back.)
                Err(prev) => match self.value.take() {
                    Some(v) => (Err(v), Ghost(Delivery { stored: true, prev: prev@, slot_empty: false, woke: false })),
                    None => (Ok(()), Ghost(Delivery { stored: true, prev: prev@, slot_empty: true, woke: false })),
                },
            },
        }
    }

    /// The receiver's close: adds `CLOSED`; returns the state it replaced.
    fn set_close(&self) -> State
        opens_invariants none
        no_unwind
    {
        State(fetch_or(&self.state, state::CLOSED))
    }

    /// What a receiver that read `seen` gets: once the sender is done, the
    /// slot's contents, whatever they are.
    fn observe(&self, seen: State) -> (r: Received<T>)
        ensures
            exists|taken: Option<T>| r == settled(seen@, taken),
            !seen@.complete ==> r == settled::<T>(seen@, None),
    {
        let taken = if seen.is_complete() {
            self.value.take()
        } else {
            None
        };
        Received::settle(seen, taken)
    }

    /// Blocks the receiver, which found the channel empty in `seen`, until the
    /// sender wakes it (or `timeout` passes), and returns the state to look at
    /// next. If the state changed since `seen`, it does not block and returns
    /// the new state.
    fn wait(&self, seen: State, timeout: Option<std::time::Duration>) -> State {
        let parker = self.notify.set_current();
        match self.state.compare_exchange(
            seen.0,
            seen.with_waiting().0,
            Ordering::Release,
            Ordering::Acquire,
        ) {
            Ok(_) => {
                match timeout {
                    Some(timeout) => parker.park_timeout(timeout),
                    None => parker.park(),
                }
                self.load()
            },
            Err(actual) => State(actual),
        }
    }
}

} // verus!
