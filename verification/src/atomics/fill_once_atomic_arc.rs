//! Atomic `Option<Arc<T>>` that can be filled only once while shared, and can therefore hand
//! out both a reference to its value and a new `Arc` to it.
use super::FillOnceAtomicOption;
use crate::cells::arc_clone;
use crate::NotEmpty;
use std::sync::Arc;
use vstd::prelude::*;

verus! {

/// Atomic `Option<Arc<T>>` that can be filled only once while shared.
#[verifier::reject_recursive_types(T)]
pub struct FillOnceAtomicArc<T> {
    cell: FillOnceAtomicOption<Arc<T>>,
}

impl<T> FillOnceAtomicArc<T> {
    /// The `Arc` the cell was made with; `None` for a cell made empty, which other threads may
    /// fill at any moment.
    pub closed spec fn known(self) -> Option<Arc<T>> {
        self.cell.known()
    }

    /// A cell holding `data`, or empty.
    pub fn new(data: Option<Arc<T>>) -> (cell: Self)
        ensures
            cell.known() == data,
    {
        match data {
            Some(shared) => FillOnceAtomicArc { cell: FillOnceAtomicOption::filled(shared) },
            None => FillOnceAtomicArc { cell: FillOnceAtomicOption::empty() },
        }
    }

    /// An empty cell.
    pub fn empty() -> (cell: Self)
        ensures
            cell.known() is None,
    {
        Self::new(None)
    }

    /// A cell holding `value`.
    pub fn filled(value: T) -> (cell: Self)
        ensures
            cell.known() matches Some(shared) && *shared == value,
    {
        Self::new(Some(Arc::new(value)))
    }

    /// Stores `data` if the cell has not been filled yet; otherwise the cell keeps its value
    /// and the result is `Err(NotEmpty)`. A cell made with a value always refuses.
    pub fn try_store(&self, data: Arc<T>) -> (result: Result<(), NotEmpty>)
        ensures
            self.known() is Some ==> result == Err::<(), NotEmpty>(NotEmpty),
    {
        self.cell.try_store(data)
    }

    /// A new `Arc` to the value, if the cell has been filled; for a cell made with a value, an
    /// `Arc` to that value.
    pub fn load(&self) -> (shared: Option<Arc<T>>)
        ensures
            self.known() matches Some(held) ==> shared == Some(held),
    {
        match self.cell.get_ref() {
            Some(shared) => Some(arc_clone(shared)),
            None => None,
        }
    }

    /// A reference to the value, if the cell has been filled; for a cell made with a value,
    /// that value.
    pub fn get_ref(&self) -> (value: Option<&T>)
        ensures
            self.known() matches Some(held) ==> value matches Some(reference) && *reference
                == *held,
    {
        match self.cell.get_ref() {
            Some(shared) => Some(&**shared),
            None => None,
        }
    }

    /// Consumes the cell, returning its content; for a cell made with a value, that `Arc`.
    pub fn into_inner(self) -> (content: Option<Arc<T>>)
        ensures
            self.known() matches Some(held) ==> content == Some(held),
    {
        match self.cell.into_inner() {
            Some(boxed) => Some(*boxed),
            None => None,
        }
    }
}

impl<T> Default for FillOnceAtomicArc<T> {
    /// An empty cell.
    fn default() -> Self {
        Self::empty()
    }
}

} // verus!
