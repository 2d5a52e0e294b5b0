//! Shared ownership (`Arc`) and write-once cells (`OnceLock`) from the standard library.
//!
//! A `OnceLock` is filled through a shared reference, by any thread that holds one: what a cell
//! holds is not part of its model, so the contracts below state nothing of it, only what a call
//! returns of its own arguments.
use crate::segments::new_segment;
use std::sync::{Arc, OnceLock};
use vstd::prelude::*;

verus! {

/// `Arc::clone`: the new pointer points to the same value.
#[verifier::external_body]
pub(crate) fn arc_clone<T>(shared: &Arc<T>) -> (copy: Arc<T>)
    ensures
        copy == *shared,
{
    Arc::clone(shared)
}

/// `Arc::try_unwrap`: the value comes back only when this was the last owner, which
/// depends on the other owners; when it does come back, it is the shared value.
#[verifier::external_body]
pub(crate) fn arc_try_unwrap<T>(shared: Arc<T>) -> (value: Option<T>)
    ensures
        value matches Some(v) ==> v == *shared,
{
    Arc::try_unwrap(shared).ok()
}

#[verifier::external_type_specification]
#[verifier::external_body]
#[verifier::reject_recursive_types(T)]
pub struct ExOnceLock<T>(OnceLock<T>);

/// `OnceLock::new`: an empty cell.
#[verifier::external_body]
pub(crate) fn once_empty<T>() -> (cell: OnceLock<T>) {
    OnceLock::new()
}

/// `OnceLock::get`: the value, if the cell has been filled; other threads may fill it at any
/// moment, so the answer depends on when the call is made.
#[verifier::external_body]
pub(crate) fn once_get<T>(cell: &OnceLock<T>) -> (value: Option<&T>) {
    cell.get()
}

/// `OnceLock::get_or_init` on a segment cell: the segment, first allocated by
/// [`new_segment`] with `length` slots if no thread has done so yet. A segment another thread
/// allocated is returned as it is.
#[verifier::external_body]
pub(crate) fn segment_get_or_init<T>(
    cell: &OnceLock<Box<Vec<OnceLock<Arc<T>>>>>,
    length: usize,
) -> (segment: &Vec<OnceLock<Arc<T>>>) {
    cell.get_or_init(|| new_segment(length))
}

/// `OnceLock::set`: fills the cell when it is empty; otherwise `value` is handed back unchanged.
#[verifier::external_body]
pub(crate) fn once_set<T>(cell: &OnceLock<T>, value: T) -> (result: Result<(), T>)
    ensures
        result matches Err(back) ==> back == value,
{
    cell.set(value)
}

/// `OnceLock::take`: empties the cell, returning what it held.
#[verifier::external_body]
pub(crate) fn once_take<T>(cell: &mut OnceLock<T>) -> (value: Option<T>) {
    cell.take()
}

/// `OnceLock::into_inner`: consumes the cell, returning what it held.
#[verifier::external_body]
pub(crate) fn once_into_inner<T>(cell: OnceLock<T>) -> (value: Option<T>) {
    cell.into_inner()
}

} // verus!
