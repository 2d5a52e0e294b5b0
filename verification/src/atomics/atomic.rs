//! Atomic `Box<T>`: a shared cell that always holds a value, which can be replaced.
//!
//! It cannot hand out a reference to the value, since another thread may replace it at any
//! moment; the value is reached by swapping it out. [`FillOnceAtomicOption`] hands out
//! references, at the price of being filled only once.
//!
//! [`FillOnceAtomicOption`]: super::FillOnceAtomicOption
use super::AlwaysFilled;
use vstd::prelude::*;
use vstd::rwlock::RwLock;

verus! {

/// Atomic `Box<T>`: a shared cell that always holds a value, which can be replaced.
pub struct Atomic<T> {
    cell: RwLock<Option<Box<T>>, AlwaysFilled>,
}

impl<T> Atomic<T> {
    #[verifier::type_invariant]
    spec fn never_empty(self) -> bool {
        self.cell.pred() == AlwaysFilled
    }

    /// A cell holding `data`.
    pub fn new(data: T) -> Self {
        Self::from_box(Box::new(data))
    }

    /// A cell holding the boxed `data`.
    pub fn from_box(data: Box<T>) -> Self {
        Atomic { cell: RwLock::new(Some(data), Ghost(AlwaysFilled)) }
    }

    /// Replaces the value by `new`, dropping the old one.
    pub fn store(&self, new: T) {
        let _previous = self.swap(new);
    }

    /// Replaces the value by `new`, returning the old one.
    pub fn swap(&self, new: T) -> Box<T> {
        proof {
            use_type_invariant(self);
        }
        let (previous, writer) = self.cell.acquire_write();
        writer.release_write(Some(Box::new(new)));
        previous.unwrap()
    }

    /// Consumes the cell, returning its value.
    pub fn into_inner(self) -> Box<T> {
        proof {
            use_type_invariant(&self);
        }
        self.cell.into_inner().unwrap()
    }
}

} // verus!
