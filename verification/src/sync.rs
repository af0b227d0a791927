//! The standard library's synchronisation primitives that the channel is
//! built from, each behind a small trusted item whose contract says what its
//! documentation promises.
//!
//! None of these can promise anything about the values that other threads
//! have written: a lock hands back whatever the slot holds, an atomic read
//! returns whatever the word holds. The verified code around them therefore
//! decides on the values they return, whichever they are.
use crate::state::{completed, State};
use vstd::prelude::*;

verus! {

#[verifier::external_type_specification]
#[verifier::external_body]
#[verifier::reject_recursive_types(T)]
pub struct ExMutex<T: ?Sized>(std::sync::Mutex<T>);

#[verifier::external_type_specification]
#[verifier::external_body]
#[verifier::reject_recursive_types(T)]
pub struct ExMutexGuard<'a, T: ?Sized + 'a>(std::sync::MutexGuard<'a, T>);

#[verifier::external_type_specification]
#[verifier::external_body]
#[verifier::reject_recursive_types(T)]
pub struct ExWakeSender<T>(std::sync::mpsc::Sender<T>);

#[verifier::external_type_specification]
#[verifier::external_body]
#[verifier::reject_recursive_types(T)]
pub struct ExWakeReceiver<T>(std::sync::mpsc::Receiver<T>);

#[verifier::external_type_specification]
#[verifier::external_body]
pub struct ExInstant(std::time::Instant);

/// `Mutex::new`: a new unlocked mutex holding `value`. Nothing is stated of
/// the mutex: its contents are only ever reached through a lock.
#[verifier::external_body]
pub fn mutex_new<T>(value: T) -> std::sync::Mutex<T> {
    std::sync::Mutex::new(value)
}

/// `Mutex::try_lock`: the guard if the mutex is free right now, `None` if
/// another thread holds it (a poisoned mutex counts as held). It never blocks
/// and never panics. Which of the two comes back depends on other threads, so
/// nothing is stated of it.
#[verifier::external_body]
pub fn mutex_try_lock<T>(m: &std::sync::Mutex<T>) -> Option<std::sync::MutexGuard<'_, T>>
    opens_invariants none
    no_unwind
{
    match m.try_lock() {
        Ok(guard) => Some(guard),
        Err(_) => None,
    }
}

/// `std::mem::replace` on the contents of a locked mutex: writes `value` and
/// hands back what was there. It never panics. What was there is not stated:
/// the guard is opaque.
#[verifier::external_body]
pub fn guard_replace<T>(guard: &mut std::sync::MutexGuard<'_, Option<T>>, value: Option<T>) -> Option<T>
    opens_invariants none
    no_unwind
{
    std::mem::replace(&mut **guard, value)
}

/// `AtomicUsize::fetch_update` with the sender's completion step
/// (`State::complete_word`) as the update function. As documented, it returns
/// `Ok(previous)` when the function gave `Some` for the word it read, after
/// storing that new word, and `Err(previous)` when the function gave `None`,
/// leaving the word unchanged. The fetch ordering is `Relaxed`, so it does not
/// panic. Which word it read depends on other threads.
#[verifier::external_body]
pub fn fetch_update_complete(state: &std::sync::atomic::AtomicUsize) -> (r: Result<usize, usize>)
    ensures
        r matches Ok(previous) ==> completed(previous) is Some,
        r matches Err(previous) ==> completed(previous) is None,
    opens_invariants none
    no_unwind
{
    state.fetch_update(
        std::sync::atomic::Ordering::AcqRel,
        std::sync::atomic::Ordering::Relaxed,
        |bits| State::complete_word(bits),
    )
}

/// `AtomicUsize::fetch_or` with `AcqRel` ordering: ors `bits` into the word and
/// returns the word it replaced, which depends on other threads. It never
/// panics.
#[verifier::external_body]
pub fn fetch_or(state: &std::sync::atomic::AtomicUsize, bits: usize) -> usize
    opens_invariants none
    no_unwind
{
    state.fetch_or(bits, std::sync::atomic::Ordering::AcqRel)
}

/// `std::sync::mpsc::channel` for wake-ups: a connected sending and receiving end.
#[verifier::external_body]
pub fn wake_channel() -> (std::sync::mpsc::Sender<()>, std::sync::mpsc::Receiver<()>) {
    std::sync::mpsc::channel()
}

/// `mpsc::Sender::send` of one wake-up, then the sending end is dropped. It
/// never blocks; an error (the receiving end is gone) is ignored.
#[verifier::external_body]
pub fn wake_send(waker: std::sync::mpsc::Sender<()>)
    opens_invariants none
    no_unwind
{
    let _ = waker.send(());
}

/// `mpsc::Receiver::recv`: blocks until a wake-up arrives or every sending end
/// is gone.
#[verifier::external_body]
pub fn wake_recv(wakeups: &std::sync::mpsc::Receiver<()>) {
    let _ = wakeups.recv();
}

/// `mpsc::Receiver::recv_timeout`: blocks until a wake-up arrives, every
/// sending end is gone, or `timeout` has passed.
#[verifier::external_body]
pub fn wake_recv_timeout(wakeups: &std::sync::mpsc::Receiver<()>, timeout: std::time::Duration) {
    let _ = wakeups.recv_timeout(timeout);
}

/// `Instant::now`: the current time, which no contract can name.
#[verifier::external_body]
pub fn instant_now() -> std::time::Instant {
    std::time::Instant::now()
}

/// `Instant::saturating_duration_since`: the time from `now` to `deadline`,
/// zero when the deadline has passed. `Instant` is opaque here, so nothing is
/// stated of the result.
#[verifier::external_body]
pub fn time_until(deadline: std::time::Instant, now: std::time::Instant) -> std::time::Duration {
    deadline.saturating_duration_since(now)
}

} // verus!
