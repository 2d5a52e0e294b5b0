//! Atomic abstractions and a thread-safe appendable list whose iterators take no lock.
//!
//! - [`atomics`]: `Atomic` (a shared `Box<T>`), `AtomicOption` (a shared `Option<Box<T>>`),
//!   `FillOnceAtomicOption` and `FillOnceAtomicArc` (cells filled at most once, which can
//!   therefore hand out references).
//! - [`VoluntaryServitude`] (alias [`VS`]): an appendable list shared between threads, and
//!   [`Iter`], an iterator over it that keeps growing while it has not been exhausted.
//! - [`pg_array`]: the PostgreSQL binary array format used to store a list in a database.
//! - [`ffi`]: the status codes of the C interface.
//! - [`segments`]: where a chain keeps each of its elements.
use vstd::prelude::*;

pub mod atomics;
pub mod ffi;
pub mod iterator;
pub mod pg_array;
pub mod segments;
pub mod voluntary_servitude;

mod byte_order;
mod cells;
mod locks;

pub use crate::atomics::{Atomic, AtomicOption, FillOnceAtomicArc, FillOnceAtomicOption};
pub use crate::iterator::Iter;
pub use crate::voluntary_servitude::{Inner, VoluntaryServitude, VS};

verus! {

/// Returned by `try_store` when the cell already holds a value.
#[derive(Copy, Clone, PartialEq, Eq, Structural, PartialOrd, Ord, Hash, Debug, Default)]
pub struct NotEmpty;

impl NotEmpty {
    /// The error's text.
    pub fn message(&self) -> (text: &'static str)
        ensures
            text@ == "not empty"@,
    {
        "not empty"
    }
}

} // verus!
