//! Atomic abstractions: cells shared between threads that hold at most one boxed value.
//!
//! - [`Atomic`]: always holds a `Box<T>`, which can be replaced.
//! - [`AtomicOption`]: holds an `Option<Box<T>>`, which can be replaced.
//! - [`FillOnceAtomicOption`]: starts empty or filled, and can be filled once while shared,
//!   so it can hand out references to what it holds.
//! - [`FillOnceAtomicArc`]: the same for an `Arc<T>`, which it can also hand out.
//!
//! The cells are shared, so what an operation finds in one depends on what other threads did
//! before: each operation below is verified to apply its transition ([`fill_if_empty`],
//! a replacement) to whatever it finds, and to keep the cell's rule (an [`Atomic`] is never
//! empty).
use crate::NotEmpty;
use vstd::prelude::*;
use vstd::rwlock::RwLockPredicate;

mod atomic;
mod atomic_option;
mod fill_once_atomic_arc;
mod fill_once_atomic_option;

pub use self::atomic::Atomic;
pub use self::atomic_option::AtomicOption;
pub use self::fill_once_atomic_arc::FillOnceAtomicArc;
pub use self::fill_once_atomic_option::FillOnceAtomicOption;

verus! {

/// A cell that may hold anything, a value or none.
pub struct AnyContent;

impl<T> RwLockPredicate<Option<Box<T>>> for AnyContent {
    open spec fn inv(self, content: Option<Box<T>>) -> bool {
        true
    }
}

/// A cell that always holds a value.
pub struct AlwaysFilled;

impl<T> RwLockPredicate<Option<Box<T>>> for AlwaysFilled {
    open spec fn inv(self, content: Option<Box<T>>) -> bool {
        content is Some
    }
}

/// What `try_store` does to the content it finds: an empty cell takes `new` and the store
/// succeeds; a filled cell keeps its value and the store fails with [`NotEmpty`].
pub fn fill_if_empty<T>(held: Option<Box<T>>, new: Box<T>) -> (outcome: (
    Option<Box<T>>,
    Result<(), NotEmpty>,
))
    ensures
        held is None ==> outcome == (Some(new), Ok::<(), NotEmpty>(())),
        held is Some ==> outcome == (held, Err::<(), NotEmpty>(NotEmpty)),
{
    match held {
        None => (Some(new), Ok(())),
        Some(value) => (Some(value), Err(NotEmpty)),
    }
}

} // verus!
