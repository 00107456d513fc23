//! The shared slot that holds the latest published snapshot.

use vstd::prelude::*;
use crate::snapshot::Snapshot;

verus! {

/// `lock_api::Mutex`, the mutex type that `parking_lot::Mutex` is an alias
/// of. Opaque: a value of it is only carried and handed to the calls below.
#[verifier::external_type_specification]
#[verifier::external_body]
#[verifier::reject_recursive_types(R)]
#[verifier::reject_recursive_types(T)]
pub struct ExMutex<R, T: ?Sized>(parking_lot::lock_api::Mutex<R, T>);

/// `parking_lot::RawMutex`, the lock inside `parking_lot::Mutex`. Opaque.
#[verifier::external_type_specification]
#[verifier::external_body]
pub struct ExRawMutex(parking_lot::RawMutex);

/// Calls `parking_lot::Mutex::new`, which puts the value behind a fresh,
/// unlocked mutex. Nothing is claimed of the result.
#[verifier::external_body]
fn slot_new(first: Snapshot) -> (slot: parking_lot::Mutex<Snapshot>) {
    parking_lot::Mutex::new(first)
}

/// Calls `parking_lot::Mutex::lock` and overwrites the guarded value while
/// the guard is held. Other threads decide what was there before and what
/// is read afterwards, so nothing is claimed.
#[verifier::external_body]
fn slot_store(slot: &parking_lot::Mutex<Snapshot>, next: Snapshot) {
    *slot.lock() = next;
}

/// Calls `parking_lot::Mutex::lock` and copies the guarded value out while
/// the guard is held. Which value that is depends on the other threads, so
/// nothing is claimed of it.
#[verifier::external_body]
fn slot_load(slot: &parking_lot::Mutex<Snapshot>) -> (current: Snapshot) {
    slot.lock().clone()
}

/// A single shared cell with the latest snapshot. It is replaced and read
/// as a whole, each under the lock, so no reader sees a snapshot in part.
pub struct StateStore {
    slot: parking_lot::Mutex<Snapshot>,
}

impl Default for StateStore {
    /// A store that holds the empty snapshot.
    fn default() -> (store: StateStore) {
        StateStore::new()
    }
}

impl StateStore {
    /// A store that holds the empty snapshot.
    pub fn new() -> (store: StateStore) {
        StateStore { slot: slot_new(Snapshot::new()) }
    }

    /// Puts `next` in place of what the store held.
    pub fn replace(&self, next: Snapshot) {
        slot_store(&self.slot, next)
    }

    /// A copy of the snapshot that the store holds at the time of the call.
    pub fn read(&self) -> (current: Snapshot) {
        slot_load(&self.slot)
    }
}

} // verus!
