//! What a receiver makes of the state word and the slot, and how each
//! receiving method answers.
use crate::error::{RecvError, RecvTimeoutError, TryRecvError};
use crate::state::{
    apply, flags_le, flags_of, lemma_flags_never_cleared, lemma_step_flags, readiness_of, run, Flags,
    Readiness, State, Transition,
};
use vstd::prelude::*;

verus! {

/// What a receive attempt found.
pub enum Received<T> {
    /// The value that the sender stored.
    Value(T),
    /// No value will ever come: the sender went away without one, or the
    /// channel was closed first.
    Disconnected,
    /// Nothing has happened yet.
    Pending,
}

/// What a receiver finds in a state with flags `f`, when the slot holds `taken`
/// (the slot is only read once the sender is done).
pub open spec fn settled<T>(f: Flags, taken: Option<T>) -> Received<T> {
    match readiness_of(f) {
        Readiness::Sent => match taken {
            Some(v) => Received::Value(v),
            None => Received::Disconnected,
        },
        Readiness::Closed => Received::Disconnected,
        Readiness::Empty => Received::Pending,
    }
}

/// The answer of `Receiver::try_recv` to what it found.
pub open spec fn try_recv_answer<T>(found: Received<T>) -> Result<T, TryRecvError> {
    match found {
        Received::Value(v) => Ok(v),
        Received::Disconnected => Err(TryRecvError::Closed),
        Received::Pending => Err(TryRecvError::Empty),
    }
}

/// The answer of `Receiver::recv` to what it found.
pub open spec fn recv_answer<T>(found: Received<T>) -> Result<T, RecvError> {
    match found {
        Received::Value(v) => Ok(v),
        _ => Err(RecvError),
    }
}

/// The answer of `Receiver::recv_timeout` and `recv_deadline` to what they found.
pub open spec fn timed_answer<T>(found: Received<T>) -> Result<T, RecvTimeoutError> {
    match found {
        Received::Value(v) => Ok(v),
        Received::Disconnected => Err(RecvTimeoutError::Closed),
        Received::Pending => Err(RecvTimeoutError::Timeout),
    }
}

impl<T> Received<T> {
    /// What a receiver that read `seen` finds, the slot holding `taken`: a sent
    /// value wins over a close, and a sender done without a value means no value
    /// will ever come.
    pub fn settle(seen: State, taken: Option<T>) -> (r: Received<T>)
        ensures
            r == settled(seen@, taken),
    {
        match seen.readiness() {
            Readiness::Sent => match taken {
                Some(v) => Received::Value(v),
                None => Received::Disconnected,
            },
            Readiness::Closed => Received::Disconnected,
            Readiness::Empty => Received::Pending,
        }
    }

    /// The answer of [`Receiver::try_recv`](crate::Receiver::try_recv).
    pub fn into_try_recv(self) -> (r: Result<T, TryRecvError>)
        ensures
            r == try_recv_answer(self),
    {
        match self {
            Received::Value(v) => Ok(v),
            Received::Disconnected => Err(TryRecvError::Closed),
            Received::Pending => Err(TryRecvError::Empty),
        }
    }

    /// The answer of [`Receiver::recv`](crate::Receiver::recv): anything but a
    /// value is an error.
    pub fn into_recv(self) -> (r: Result<T, RecvError>)
        ensures
            r == recv_answer(self),
    {
        match self {
            Received::Value(v) => Ok(v),
            _ => Err(RecvError),
        }
    }

    /// The answer of [`Receiver::recv_timeout`](crate::Receiver::recv_timeout)
    /// and [`Receiver::recv_deadline`](crate::Receiver::recv_deadline).
    pub fn into_timed(self) -> (r: Result<T, RecvTimeoutError>)
        ensures
            r == timed_answer(self),
    {
        match self {
            Received::Value(v) => Ok(v),
            Received::Disconnected => Err(RecvTimeoutError::Closed),
            Received::Pending => Err(RecvTimeoutError::Timeout),
        }
    }
}

/// What the sender stored is what the receiver gets: once a send has been
/// accepted on a channel that was not closed, whatever the state goes through
/// afterwards (the receiver waiting, closing), a receiver that finds the stored
/// value answers with exactly that value, by every receiving method.
pub proof fn lemma_sent_value_is_received<T>(bits: usize, steps: Seq<Transition>, value: T)
    requires
        !flags_of(bits).closed,
    ensures
        ({
            let found = settled(flags_of(run(apply(bits, Transition::Complete), steps)), Some(value));
            &&& found == Received::Value(value)
            &&& recv_answer(found) == Ok::<T, RecvError>(value)
            &&& try_recv_answer(found) == Ok::<T, TryRecvError>(value)
            &&& timed_answer(found) == Ok::<T, RecvTimeoutError>(value)
        }),
{
    let done = apply(bits, Transition::Complete);
    lemma_step_flags(bits, Transition::Complete);
    lemma_flags_never_cleared(done, steps);
}

/// A sender that went away without sending leaves the receiver an error, never
/// a value and never a wait, whatever happens afterwards.
pub proof fn lemma_sender_gone_is_an_error<T>(bits: usize, steps: Seq<Transition>)
    requires
        !flags_of(bits).closed,
    ensures
        ({
            let found = settled::<T>(flags_of(run(apply(bits, Transition::Complete), steps)), None);
            &&& found == Received::<T>::Disconnected
            &&& recv_answer(found) == Err::<T, RecvError>(RecvError)
            &&& try_recv_answer(found) == Err::<T, TryRecvError>(TryRecvError::Closed)
            &&& timed_answer(found) == Err::<T, RecvTimeoutError>(RecvTimeoutError::Closed)
        }),
{
    let done = apply(bits, Transition::Complete);
    lemma_step_flags(bits, Transition::Complete);
    lemma_flags_never_cleared(done, steps);
}

/// Once the receiver closes a channel on which nothing was sent, it never gets
/// a value and never waits: whatever follows, including any send, every
/// receiving method reports that the channel is closed.
pub proof fn lemma_closed_before_send_stays_closed<T>(bits: usize, steps: Seq<Transition>, taken: Option<T>)
    requires
        !flags_of(bits).complete,
    ensures
        ({
            let found = settled(flags_of(run(apply(bits, Transition::Close), steps)), taken);
            &&& found == Received::<T>::Disconnected
            &&& recv_answer(found) == Err::<T, RecvError>(RecvError)
            &&& try_recv_answer(found) == Err::<T, TryRecvError>(TryRecvError::Closed)
            &&& timed_answer(found) == Err::<T, RecvTimeoutError>(RecvTimeoutError::Closed)
        }),
{
    let closed = apply(bits, Transition::Close);
    lemma_step_flags(bits, Transition::Close);
    lemma_closed_never_completes(closed, steps);
    lemma_flags_never_cleared(closed, steps);
}

/// A closed state that is not complete never becomes complete.
proof fn lemma_closed_never_completes(bits: usize, steps: Seq<Transition>)
    requires
        flags_of(bits).closed,
        !flags_of(bits).complete,
    ensures
        !flags_of(run(bits, steps)).complete,
    decreases steps.len(),
{
    if steps.len() > 0 {
        let next = apply(bits, steps[0]);
        lemma_step_flags(bits, steps[0]);
        lemma_closed_never_completes(next, steps.drop_first());
    }
}

/// The shared state as a whole: the state word and the slot.
pub struct Shared<T> {
    pub word: usize,
    pub slot: Option<T>,
}

/// The operations on the shared state: the sender stores its value before
/// completing and takes it back after a refused completion; every other
/// operation is a write to the word.
pub enum Op<T> {
    Store(T),
    TakeBack,
    Word(Transition),
}

/// The operations that the receiver performs while the sender sends: it
/// announces that it waits, or it closes. (It only takes from the slot once it
/// sees the completion, and then it is done.)
pub open spec fn receiver_op<T>(op: Op<T>) -> bool {
    match op {
        Op::Word(t) => t != Transition::Complete,
        _ => false,
    }
}

pub open spec fn perform<T>(s: Shared<T>, op: Op<T>) -> Shared<T> {
    match op {
        Op::Store(v) => Shared { word: s.word, slot: Some(v) },
        Op::TakeBack => Shared { word: s.word, slot: None },
        Op::Word(t) => Shared { word: apply(s.word, t), slot: s.slot },
    }
}

pub open spec fn perform_all<T>(s: Shared<T>, ops: Seq<Op<T>>) -> Shared<T>
    decreases ops.len(),
{
    if ops.len() == 0 {
        s
    } else {
        perform_all(perform(s, ops[0]), ops.drop_first())
    }
}

/// What a receiver that looks at the shared state `s` finds.
pub open spec fn found<T>(s: Shared<T>) -> Received<T> {
    settled(flags_of(s.word), s.slot)
}

/// The receiver's operations leave the slot alone, clear no flag and never
/// complete.
proof fn lemma_receiver_ops<T>(s: Shared<T>, ops: Seq<Op<T>>)
    requires
        forall|i: int| 0 <= i < ops.len() ==> receiver_op(#[trigger] ops[i]),
    ensures
        perform_all(s, ops).slot == s.slot,
        flags_le(flags_of(s.word), flags_of(perform_all(s, ops).word)),
        !flags_of(s.word).complete ==> !flags_of(perform_all(s, ops).word).complete,
    decreases ops.len(),
{
    if ops.len() > 0 {
        assert(receiver_op(ops[0]));
        let t = ops[0]->Word_0;
        lemma_step_flags(s.word, t);
        let rest = ops.drop_first();
        assert forall|i: int| 0 <= i < rest.len() implies receiver_op(#[trigger] rest[i]) by {
            assert(rest[i] == ops[i + 1]);
        }
        lemma_receiver_ops(perform(s, ops[0]), rest);
    }
}

/// A send, whatever the receiver does around it. The sender stores `value`
/// and then completes; the receiver announces or closes, before and after.
/// If the completion is accepted, a receiver that then looks finds exactly
/// `value`, and every receiving method answers with it. If it is refused (the
/// receiver closed first), the sender takes back exactly `value`, and from then
/// on every receiving method reports the channel closed.
pub proof fn lemma_send_protocol<T>(
    bits: usize,
    before: Seq<Op<T>>,
    after: Seq<Op<T>>,
    value: T,
)
    requires
        !flags_of(bits).complete,
        forall|i: int| 0 <= i < before.len() ==> receiver_op(#[trigger] before[i]),
        forall|i: int| 0 <= i < after.len() ==> receiver_op(#[trigger] after[i]),
    ensures
        ({
            let ready = perform_all(Shared { word: bits, slot: None }, before);
            let stored = perform(ready, Op::Store(value));
            let completed = perform(stored, Op::Word(Transition::Complete));
            if !flags_of(ready.word).closed {
                let later = perform_all(completed, after);
                &&& found(later) == Received::Value(value)
                &&& recv_answer(found(later)) == Ok::<T, RecvError>(value)
                &&& try_recv_answer(found(later)) == Ok::<T, TryRecvError>(value)
                &&& timed_answer(found(later)) == Ok::<T, RecvTimeoutError>(value)
            } else {
                let later = perform_all(perform(completed, Op::TakeBack), after);
                &&& completed.slot == Some(value)
                &&& found(later) == Received::<T>::Disconnected
                &&& recv_answer(found(later)) == Err::<T, RecvError>(RecvError)
                &&& try_recv_answer(found(later)) == Err::<T, TryRecvError>(TryRecvError::Closed)
                &&& timed_answer(found(later)) == Err::<T, RecvTimeoutError>(RecvTimeoutError::Closed)
            }
        }),
{
    let start = Shared { word: bits, slot: None::<T> };
    lemma_receiver_ops(start, before);
    let ready = perform_all(start, before);
    let stored = perform(ready, Op::Store(value));
    let completed = perform(stored, Op::Word(Transition::Complete));
    lemma_step_flags(ready.word, Transition::Complete);
    if !flags_of(ready.word).closed {
        lemma_receiver_ops(completed, after);
    } else {
        let taken = perform(completed, Op::TakeBack);
        lemma_receiver_ops(taken, after);
    }
}

/// What a receiver finds depends on the completion and close flags only: the
/// `WAITING` flag, which its own earlier waits may have left, never changes
/// the answer of any receiving method.
pub proof fn lemma_answer_ignores_waiting<T>(a: Flags, b: Flags, taken: Option<T>)
    requires
        a.complete == b.complete,
        a.closed == b.closed,
    ensures
        settled(a, taken) == settled(b, taken),
        try_recv_answer(settled(a, taken)) == try_recv_answer(settled(b, taken)),
        recv_answer(settled(a, taken)) == recv_answer(settled(b, taken)),
        timed_answer(settled(a, taken)) == timed_answer(settled(b, taken)),
{
}

/// A receiver finds nothing, and a timed receive times out, exactly when the
/// state it looked at has neither the sender's completion nor a close; once
/// the sender completed or the channel closed, no receiving method reports
/// "nothing yet".
pub proof fn lemma_nothing_yet_iff_empty<T>(f: Flags, taken: Option<T>)
    ensures
        (settled(f, taken) is Pending) == (!f.complete && !f.closed),
        (timed_answer(settled(f, taken)) == Err::<T, RecvTimeoutError>(RecvTimeoutError::Timeout))
            == (!f.complete && !f.closed),
        (try_recv_answer(settled(f, taken)) == Err::<T, TryRecvError>(TryRecvError::Empty))
            == (!f.complete && !f.closed),
        f.complete ==> (taken matches Some(v) ==> recv_answer(settled(f, taken)) == Ok::<T, RecvError>(v)),
{
}

} // verus!
