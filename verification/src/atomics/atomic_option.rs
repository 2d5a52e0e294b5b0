//! Atomic `Option<Box<T>>`: a shared cell that may hold a value, which can be replaced.
use super::{fill_if_empty, Atomic, AnyContent, FillOnceAtomicOption};
use crate::NotEmpty;
use vstd::prelude::*;
use vstd::rwlock::RwLock;

verus! {

/// Atomic `Option<Box<T>>`: a shared cell that may hold a value, which can be replaced.
pub struct AtomicOption<T> {
    cell: RwLock<Option<Box<T>>, AnyContent>,
}

impl<T> AtomicOption<T> {
    /// A cell holding `value`, or empty.
    pub fn new(value: Option<Box<T>>) -> Self {
        AtomicOption { cell: RwLock::new(value, Ghost(AnyContent)) }
    }

    /// An empty cell.
    pub fn empty() -> Self {
        Self::new(None)
    }

    /// A cell holding `value`.
    pub fn filled(value: T) -> Self {
        Self::new(Some(Box::new(value)))
    }

    /// The value of a [`FillOnceAtomicOption`], moved into a new cell.
    pub fn from_fill_once(cell: FillOnceAtomicOption<T>) -> Self {
        Self::new(cell.into_inner())
    }

    /// The value of an [`Atomic`], moved into a new cell.
    pub fn from_atomic(cell: Atomic<T>) -> Self {
        Self::new(Some(cell.into_inner()))
    }

    /// Stores `new` if the cell is empty at that moment (see [`fill_if_empty`]); otherwise
    /// the cell keeps its value and the result is `Err(NotEmpty)`.
    pub fn try_store(&self, new: Box<T>) -> Result<(), NotEmpty> {
        let (held, writer) = self.cell.acquire_write();
        let (content, outcome) = fill_if_empty(held, new);
        writer.release_write(content);
        outcome
    }

    /// Replaces the content by `new`, dropping the old one.
    pub fn store(&self, new: Option<Box<T>>) {
        let _previous = self.swap(new);
    }

    /// Replaces the content by `new`, returning the old one.
    pub fn swap(&self, new: Option<Box<T>>) -> Option<Box<T>> {
        let (previous, writer) = self.cell.acquire_write();
        writer.release_write(new);
        previous
    }

    /// Empties the cell, returning its old content.
    pub fn take(&self) -> Option<Box<T>> {
        self.swap(None)
    }

    /// Consumes the cell, returning its content.
    pub fn into_inner(self) -> Option<Box<T>> {
        self.cell.into_inner()
    }
}

impl<T> Default for AtomicOption<T> {
    /// An empty cell.
    fn default() -> Self {
        Self::empty()
    }
}

} // verus!
