//! The cell that carries the value from the sender to the receiver.
use crate::sync::{guard_replace, mutex_new, mutex_try_lock};
use vstd::prelude::*;

verus! {

/// Holds the sent value until the receiver takes it.
///
/// The state word decides who may touch the slot and when: the sender stores
/// before it completes and takes back only after its completion was refused;
/// the receiver takes only once it sees the completion. So no two threads
/// ever reach for the slot at once, and every access only tries the lock,
/// which never blocks. The contents depend on the other side's actions, so
/// nothing is stated of what `take` returns.
#[derive(Debug)]
#[verifier::reject_recursive_types(T)]
pub struct Slot<T> {
    value: std::sync::Mutex<Option<T>>,
}

impl<T> Slot<T> {
    /// An empty slot.
    pub fn new() -> Slot<T> {
        Slot { value: mutex_new(None) }
    }

    /// Stores `value`, replacing whatever the slot held (which is dropped
    /// after the slot is released). If another thread is using the slot right
    /// now, nothing is stored and `value` comes back. Never blocks.
    pub fn set(&self, value: T) -> (r: Result<(), T>)
        ensures
            r matches Err(v) ==> v == value,
    {
        let stored = match mutex_try_lock(&self.value) {
            Some(mut guard) => Ok(guard_replace(&mut guard, Some(value))),
            None => Err(value),
        };
        match stored {
            Ok(_replaced) => Ok(()),
            Err(v) => Err(v),
        }
    }

    /// Empties the slot and returns what it held, unless another thread is
    /// using the slot right now; then it leaves the slot alone and returns
    /// `None`. Never blocks.
    pub fn take(&self) -> Option<T>
        opens_invariants none
        no_unwind
    {
        match mutex_try_lock(&self.value) {
            Some(mut guard) => guard_replace(&mut guard, None),
            None => None,
        }
    }
}

} // verus!
