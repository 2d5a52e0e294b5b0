//! The reader-writer lock of `parking_lot` that guards which chain a list currently owns.
//!
//! The lock is shared between threads and written through shared references, so what a read
//! returns depends on what other threads stored before it: the guarded value is not part of the
//! lock's model, and the contracts below state nothing of the value read, nor of what
//! `into_inner` gives back.
use parking_lot::RwLock;
use vstd::prelude::*;

verus! {

#[verifier::external_type_specification]
#[verifier::external_body]
#[verifier::reject_recursive_types(R)]
#[verifier::reject_recursive_types(T)]
pub struct ExRwLock<R, T: ?Sized>(parking_lot::lock_api::RwLock<R, T>);

#[verifier::external_type_specification]
#[verifier::external_body]
pub struct ExRawRwLock(parking_lot::RawRwLock);

/// `parking_lot::RwLock::new`: an unlocked lock around `value`.
#[verifier::external_body]
pub(crate) fn lock_new<T>(value: T) -> (lock: RwLock<T>) {
    RwLock::new(value)
}

/// `parking_lot::RwLock::into_inner`: consumes the lock and gives back what it guards.
#[verifier::external_body]
pub(crate) fn lock_into_inner<T>(lock: RwLock<T>) -> (value: T) {
    lock.into_inner()
}

/// `parking_lot::RwLock::read`, then a clone of the shared pointer it guards; the guard is
/// released before returning.
#[verifier::external_body]
pub(crate) fn lock_read_clone<T>(lock: &RwLock<std::sync::Arc<T>>) -> (value: std::sync::Arc<T>) {
    lock.read().clone()
}

/// `parking_lot::RwLock::write`, then `std::mem::replace` of the guarded value by `value`;
/// returns the value that was replaced.
#[verifier::external_body]
pub(crate) fn lock_replace<T>(lock: &RwLock<T>, value: T) -> (previous: T) {
    std::mem::replace(&mut *lock.write(), value)
}

/// `parking_lot::RwLock::write` on both locks, the first one first, then `std::mem::swap` of the
/// two guarded values; both guards are held during the exchange and released before returning.
/// When both references are to the same lock (`std::ptr::eq`), nothing is exchanged: a second
/// `write` on a lock whose write guard this thread holds would never return, and no contract can
/// name a reference's address to leave that input out.
#[verifier::external_body]
pub(crate) fn lock_swap<T>(first: &RwLock<T>, second: &RwLock<T>) {
    if !std::ptr::eq(first, second) {
        std::mem::swap(&mut *first.write(), &mut *second.write())
    }
}

} // verus!
