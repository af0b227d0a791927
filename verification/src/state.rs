//! The channel's state word: three flags packed into one `usize`.
//!
//! The receiver sets `WAITING` before it blocks and `CLOSED` when it closes or
//! goes away; the sender sets `VALUE_SENT` when it has stored its value or
//! gone away, unless the receiver has closed. No operation ever clears a flag.
use vstd::prelude::*;

verus! {

/// Set by the receiver before it blocks, so that the sender knows to wake it.
pub const WAITING: usize = 0b0001;

/// Set by the sender once it is done: its value is stored, or it went away.
pub const VALUE_SENT: usize = 0b0010;

/// Set by the receiver when it closes the channel or goes away.
pub const CLOSED: usize = 0b0100;

/// The three flags that a state word holds.
#[derive(Clone, Copy, Debug, PartialEq, Eq, Structural)]
pub struct Flags {
    pub waiting: bool,
    pub complete: bool,
    pub closed: bool,
}

/// What each flag of the state word `bits` says.
pub open spec fn flags_of(bits: usize) -> Flags {
    Flags {
        waiting: bits & WAITING == WAITING,
        complete: bits & VALUE_SENT == VALUE_SENT,
        closed: bits & CLOSED == CLOSED,
    }
}

/// Every flag set in `a` is also set in `b`.
pub open spec fn flags_le(a: Flags, b: Flags) -> bool {
    &&& a.waiting ==> b.waiting
    &&& a.complete ==> b.complete
    &&& a.closed ==> b.closed
}

/// `n + 1`, wrapping to 0 at the top of `usize`.
pub open spec fn next_count(n: usize) -> usize {
    if n == usize::MAX {
        0
    } else {
        (n + 1) as usize
    }
}

/// A snapshot of the channel's state word.
#[derive(Clone, Copy, Debug, PartialEq, Eq, Structural)]
pub struct State(pub usize);

impl View for State {
    type V = Flags;

    open spec fn view(&self) -> Flags {
        flags_of(self.0)
    }
}

/// What a receiver finds when it looks at the state: a sent value wins over a close.
#[derive(Clone, Copy, Debug, PartialEq, Eq, Structural)]
pub enum Readiness {
    /// The sender is done: its value, if it stored one, waits in the slot.
    Sent,
    /// The receiver has closed the channel and nothing was sent before.
    Closed,
    /// Nothing has happened yet.
    Empty,
}

pub open spec fn readiness_of(f: Flags) -> Readiness {
    if f.complete {
        Readiness::Sent
    } else if f.closed {
        Readiness::Closed
    } else {
        Readiness::Empty
    }
}

/// The word that the sender's completion writes over `bits`, or `None` when
/// the receiver has closed the channel and the completion is refused.
pub open spec fn completed(bits: usize) -> Option<usize> {
    if flags_of(bits).closed {
        None
    } else {
        Some(bits | VALUE_SENT)
    }
}

/// The writes that the protocol makes to the state word.
#[derive(Clone, Copy, Debug, PartialEq, Eq, Structural)]
pub enum Transition {
    /// The receiver announces that it is about to block.
    AnnounceWait,
    /// The receiver closes the channel (also when it goes away).
    Close,
    /// The sender completes (after storing its value, or when it goes away).
    Complete,
}

pub open spec fn apply(bits: usize, t: Transition) -> usize {
    match t {
        Transition::AnnounceWait => bits | WAITING,
        Transition::Close => bits | CLOSED,
        Transition::Complete => match completed(bits) {
            Some(next) => next,
            None => bits,
        },
    }
}

/// The word reached from `bits` by the transitions `steps`, in order.
pub open spec fn run(bits: usize, steps: Seq<Transition>) -> usize
    decreases steps.len(),
{
    if steps.len() == 0 {
        bits
    } else {
        run(apply(bits, steps[0]), steps.drop_first())
    }
}

proof fn lemma_or_flags(b: usize)
    ensures
        (b | WAITING) & WAITING == WAITING,
        (b | WAITING) & VALUE_SENT == b & VALUE_SENT,
        (b | WAITING) & CLOSED == b & CLOSED,
        (b | VALUE_SENT) & WAITING == b & WAITING,
        (b | VALUE_SENT) & VALUE_SENT == VALUE_SENT,
        (b | VALUE_SENT) & CLOSED == b & CLOSED,
        (b | CLOSED) & WAITING == b & WAITING,
        (b | CLOSED) & VALUE_SENT == b & VALUE_SENT,
        (b | CLOSED) & CLOSED == CLOSED,
        (b | CLOSED) | CLOSED == b | CLOSED,
        0usize & WAITING != WAITING,
        0usize & VALUE_SENT != VALUE_SENT,
        0usize & CLOSED != CLOSED,
{
    assert((b | 1usize) & 1usize == 1usize) by (bit_vector);
    assert((b | 1usize) & 2usize == b & 2usize) by (bit_vector);
    assert((b | 1usize) & 4usize == b & 4usize) by (bit_vector);
    assert((b | 2usize) & 1usize == b & 1usize) by (bit_vector);
    assert((b | 2usize) & 2usize == 2usize) by (bit_vector);
    assert((b | 2usize) & 4usize == b & 4usize) by (bit_vector);
    assert((b | 4usize) & 1usize == b & 1usize) by (bit_vector);
    assert((b | 4usize) & 2usize == b & 2usize) by (bit_vector);
    assert((b | 4usize) & 4usize == 4usize) by (bit_vector);
    assert((b | 4usize) | 4usize == b | 4usize) by (bit_vector);
    assert(0usize & 1usize == 0usize) by (bit_vector);
    assert(0usize & 2usize == 0usize) by (bit_vector);
    assert(0usize & 4usize == 0usize) by (bit_vector);
}

impl State {
    /// The state of a fresh channel: no flag set.
    pub fn new() -> (r: State)
        ensures
            r.0 == 0,
            r@ == (Flags { waiting: false, complete: false, closed: false }),
    {
        proof {
            lemma_or_flags(0);
        }
        State(0)
    }

    /// True if the receiver has closed the channel or gone away.
    pub fn is_closed(&self) -> (r: bool)
        ensures
            r == self@.closed,
        opens_invariants none
        no_unwind
    {
        self.0 & CLOSED == CLOSED
    }

    /// True if the receiver has announced that it blocks.
    pub fn is_waiting(&self) -> (r: bool)
        ensures
            r == self@.waiting,
        opens_invariants none
        no_unwind
    {
        self.0 & WAITING == WAITING
    }

    /// True if the sender is done: it stored its value or went away.
    pub fn is_complete(&self) -> (r: bool)
        ensures
            r == self@.complete,
        opens_invariants none
        no_unwind
    {
        self.0 & VALUE_SENT == VALUE_SENT
    }

    /// The state with `WAITING` added.
    pub fn with_waiting(&self) -> (r: State)
        ensures
            r.0 == apply(self.0, Transition::AnnounceWait),
            r@ == (Flags { waiting: true, complete: self@.complete, closed: self@.closed }),
    {
        proof {
            lemma_or_flags(self.0);
        }
        State(self.0 | WAITING)
    }

    /// The state with `CLOSED` added.
    pub fn with_closed(&self) -> (r: State)
        ensures
            r.0 == apply(self.0, Transition::Close),
            r@ == (Flags { waiting: self@.waiting, complete: self@.complete, closed: true }),
    {
        proof {
            lemma_or_flags(self.0);
        }
        State(self.0 | CLOSED)
    }

    /// The word that the sender's completion writes over `bits`: `bits` with
    /// `VALUE_SENT` added, or `None` when `bits` is closed.
    pub fn complete_word(bits: usize) -> (r: Option<usize>)
        ensures
            r == completed(bits),
            r matches Some(next) ==> flags_of(next) == (Flags {
                waiting: flags_of(bits).waiting,
                complete: true,
                closed: false,
            }),
    {
        proof {
            lemma_or_flags(bits);
        }
        if bits & CLOSED == CLOSED {
            None
        } else {
            Some(bits | VALUE_SENT)
        }
    }

    /// What a receiver finds in this state.
    pub fn readiness(&self) -> (r: Readiness)
        ensures
            r == readiness_of(self@),
    {
        if self.is_complete() {
            Readiness::Sent
        } else if self.is_closed() {
            Readiness::Closed
        } else {
            Readiness::Empty
        }
    }
}

/// Each write sets its own flag and leaves the others alone; the sender's
/// completion leaves a closed state unchanged.
pub proof fn lemma_step_flags(bits: usize, t: Transition)
    ensures
        flags_of(apply(bits, t)) == (match t {
            Transition::AnnounceWait => Flags {
                waiting: true,
                complete: flags_of(bits).complete,
                closed: flags_of(bits).closed,
            },
            Transition::Close => Flags {
                waiting: flags_of(bits).waiting,
                complete: flags_of(bits).complete,
                closed: true,
            },
            Transition::Complete => if flags_of(bits).closed {
                flags_of(bits)
            } else {
                Flags { waiting: flags_of(bits).waiting, complete: true, closed: false }
            },
        }),
{
    lemma_or_flags(bits);
}

/// The sender's completion is refused exactly when the word is closed,
/// whatever else it holds (a waiting receiver included); a close always
/// leaves the word closed, whatever it held before.
pub proof fn lemma_completion_refused_iff_closed(bits: usize)
    ensures
        (completed(bits) is None) == flags_of(bits).closed,
        flags_of(apply(bits, Transition::Close)).closed,
        flags_of(apply(bits, Transition::Close)).complete == flags_of(bits).complete,
{
    lemma_or_flags(bits);
}

/// No transition clears a flag: whatever happens to the state word, a flag
/// once set stays set.
pub proof fn lemma_flags_never_cleared(bits: usize, steps: Seq<Transition>)
    ensures
        flags_le(flags_of(bits), flags_of(run(bits, steps))),
    decreases steps.len(),
{
    if steps.len() > 0 {
        lemma_or_flags(bits);
        let next = apply(bits, steps[0]);
        lemma_flags_never_cleared(next, steps.drop_first());
    }
}

/// Once the receiver has closed the channel, whatever happens next, a send
/// is refused.
pub proof fn lemma_send_after_close_refused(bits: usize, steps: Seq<Transition>)
    requires
        flags_of(bits).closed,
    ensures
        completed(run(bits, steps)) is None,
        apply(run(bits, steps), Transition::Complete) == run(bits, steps),
{
    lemma_flags_never_cleared(bits, steps);
}

/// A value sent before the receiver closes the channel is still there to be
/// received, whatever happens next.
pub proof fn lemma_sent_survives_close(bits: usize, steps: Seq<Transition>)
    requires
        flags_of(bits).complete,
    ensures
        readiness_of(flags_of(run(bits, steps))) == Readiness::Sent,
{
    lemma_flags_never_cleared(bits, steps);
}

/// After the sender's completion attempt, accepted or refused, the receiver
/// never again finds the channel empty, whatever happens next. The sender
/// wakes the receiver only after that attempt, so a woken receiver always
/// finds either the value or the close.
pub proof fn lemma_after_completion_never_empty(bits: usize, steps: Seq<Transition>)
    ensures
        readiness_of(flags_of(run(apply(bits, Transition::Complete), steps))) != Readiness::Empty,
{
    lemma_step_flags(bits, Transition::Complete);
    lemma_flags_never_cleared(apply(bits, Transition::Complete), steps);
}

/// A receiver that announced it would block is seen as waiting by every later
/// state, so the sender's completion always finds it and wakes it.
pub proof fn lemma_waiter_is_seen(bits: usize, steps: Seq<Transition>)
    ensures
        flags_of(run(apply(bits, Transition::AnnounceWait), steps)).waiting,
{
    lemma_or_flags(bits);
    lemma_flags_never_cleared(apply(bits, Transition::AnnounceWait), steps);
}

/// Closing twice is the same as closing once.
pub proof fn lemma_close_idempotent(bits: usize)
    ensures
        apply(apply(bits, Transition::Close), Transition::Close) == apply(bits, Transition::Close),
{
    lemma_or_flags(bits);
}

/// On a fresh channel a send is accepted, and the receiver then finds it; with
/// nothing sent the receiver finds the channel empty, and after a close, closed.
pub proof fn lemma_fresh_channel()
    ensures
        readiness_of(flags_of(0)) == Readiness::Empty,
        completed(0) == Some(VALUE_SENT),
        readiness_of(flags_of(VALUE_SENT)) == Readiness::Sent,
        readiness_of(flags_of(apply(0, Transition::Close))) == Readiness::Closed,
{
    lemma_or_flags(0);
    assert(0usize | VALUE_SENT == VALUE_SENT) by (bit_vector);
    assert(0usize | CLOSED == CLOSED) by (bit_vector);
    assert(VALUE_SENT & VALUE_SENT == VALUE_SENT) by (bit_vector);
    assert(CLOSED & VALUE_SENT != VALUE_SENT) by (bit_vector);
    assert(CLOSED & CLOSED == CLOSED) by (bit_vector);
}

} // verus!
