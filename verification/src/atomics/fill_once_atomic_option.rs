//! Atomic `Option<Box<T>>` that can be filled only once while shared, and can therefore hand
//! out references to its value: once filled, the value stays until the cell is taken by
//! `&mut` access or consumed. Ideal for an iterator or a consumer that does not consume the data.
use super::{Atomic, AtomicOption};
use crate::cells::{once_empty, once_get, once_into_inner, once_set, once_take};
use crate::NotEmpty;
use std::sync::OnceLock;
use vstd::prelude::*;

verus! {

/// The state of a fill-once cell: made with its value, which then never changes while the cell
/// is shared, or made empty, to be filled at most once by any thread holding it.
#[verifier::reject_recursive_types(T)]
enum Slot<T> {
    Filled(Box<T>),
    Open(OnceLock<Box<T>>),
}

/// Atomic `Option<Box<T>>` that can be filled only once while shared, and hands out
/// references to its value.
#[verifier::reject_recursive_types(T)]
pub struct FillOnceAtomicOption<T> {
    slot: Slot<T>,
}

impl<T> FillOnceAtomicOption<T> {
    /// The value the cell was made with, or was found holding by `&mut` or owned access; `None`
    /// for a cell made empty, which other threads may fill at any moment.
    pub closed spec fn known(self) -> Option<T> {
        match self.slot {
            Slot::Filled(value) => Some(*value),
            Slot::Open(_) => None,
        }
    }

    /// A cell holding `data`, or empty.
    pub fn new(data: Option<Box<T>>) -> (cell: Self)
        ensures
            data matches Some(value) ==> cell.known() == Some(*value),
            data is None ==> cell.known() is None,
    {
        match data {
            Some(value) => FillOnceAtomicOption { slot: Slot::Filled(value) },
            None => FillOnceAtomicOption { slot: Slot::Open(once_empty()) },
        }
    }

    /// An empty cell.
    pub fn empty() -> (cell: Self)
        ensures
            cell.known() is None,
    {
        Self::new(None)
    }

    /// A cell holding `value`.
    pub fn filled(value: T) -> (cell: Self)
        ensures
            cell.known() == Some(value),
    {
        Self::new(Some(Box::new(value)))
    }

    /// The content of an [`AtomicOption`], moved into a new cell.
    pub fn from_atomic_option(cell: AtomicOption<T>) -> Self {
        Self::new(cell.into_inner())
    }

    /// The value of an [`Atomic`], moved into a new cell, which is therefore filled.
    pub fn from_atomic(cell: Atomic<T>) -> (filled: Self)
        ensures
            filled.known() is Some,
    {
        Self::new(Some(cell.into_inner()))
    }

    /// Stores `data` if the cell has not been filled yet; otherwise the cell keeps its value,
    /// `data` is dropped and the result is `Err(NotEmpty)`. A cell made with a value always
    /// refuses.
    pub fn try_store(&self, data: T) -> (result: Result<(), NotEmpty>)
        ensures
            self.known() is Some ==> result == Err::<(), NotEmpty>(NotEmpty),
    {
        match &self.slot {
            Slot::Filled(_) => Err(NotEmpty),
            Slot::Open(cell) => match once_set(cell, Box::new(data)) {
                Ok(()) => Ok(()),
                Err(_rejected) => Err(NotEmpty),
            },
        }
    }

    /// Empties the cell, returning its old content; the `&mut` access guarantees that nobody
    /// holds a reference to it. A cell made with a value gives it back.
    pub fn take(&mut self) -> (content: Option<Box<T>>)
        ensures
            old(self).known() matches Some(value) ==> content matches Some(boxed) && *boxed
                == value,
            final(self).known() is None,
    {
        let mut slot = Slot::Open(once_empty());
        std::mem::swap(&mut slot, &mut self.slot);
        match slot {
            Slot::Filled(value) => Some(value),
            Slot::Open(cell) => {
                let mut cell = cell;
                once_take(&mut cell)
            },
        }
    }

    /// A reference to the value, if the cell has been filled; for a cell made with a value,
    /// that value.
    pub fn get_ref(&self) -> (value: Option<&T>)
        ensures
            self.known() matches Some(held) ==> value matches Some(reference) && *reference
                == held,
    {
        match &self.slot {
            Slot::Filled(value) => Some(&**value),
            Slot::Open(cell) => match once_get(cell) {
                Some(boxed) => Some(&**boxed),
                None => None,
            },
        }
    }

    /// Consumes the cell, returning its content; for a cell made with a value, that value.
    pub fn into_inner(self) -> (content: Option<Box<T>>)
        ensures
            self.known() matches Some(value) ==> content matches Some(boxed) && *boxed == value,
    {
        match self.slot {
            Slot::Filled(value) => Some(value),
            Slot::Open(cell) => once_into_inner(cell),
        }
    }
}

impl<T: Copy> FillOnceAtomicOption<T> {
    /// A copy of the value, if the cell has been filled; for a cell made with a value, that value.
    pub fn load(&self) -> (value: Option<T>)
        ensures
            self.known() matches Some(held) ==> value == Some(held),
    {
        match self.get_ref() {
            Some(value) => Some(*value),
            None => None,
        }
    }
}

impl<T> Default for FillOnceAtomicOption<T> {
    /// An empty cell.
    fn default() -> Self {
        Self::empty()
    }
}

} // verus!
