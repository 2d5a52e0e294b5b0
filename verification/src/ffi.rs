//! What the C interface answers: its status codes and its null results.
//!
//! The C functions take raw pointers, which a caller may leave NULL; the functions below take
//! the pointer's target as an `Option`, `None` standing for NULL, and decide what to do and
//! what to answer. Status codes are `0` for success and `1` for a NULL argument.
use crate::iterator::Iter;
use crate::voluntary_servitude::{Inner, VoluntaryServitude};
use std::sync::Arc;
use vstd::prelude::*;

verus! {

/// The status of an operation that needs its arguments: `0` when all were given, `1` otherwise.
pub open spec fn status(given: bool) -> u8 {
    if given {
        0
    } else {
        1
    }
}

/// A new, empty list.
pub fn vs_new<T>() -> VoluntaryServitude<T> {
    VoluntaryServitude::new()
}

/// An iterator over the list, or `None` for a NULL list.
pub fn vs_iter<T>(list: Option<&VoluntaryServitude<T>>) -> (iter: Option<Iter<T>>)
    ensures
        iter is Some <==> list is Some,
        iter matches Some(it) ==> it.position() == 0,
        iter matches Some(it) ==> it.on_known(),
{
    match list {
        Some(list) => Some(list.iter()),
        None => None,
    }
}

/// The list's length, or 0 for a NULL list.
pub fn vs_len<T>(list: Option<&VoluntaryServitude<T>>) -> (length: usize)
    ensures
        list is None ==> length == 0,
{
    match list {
        Some(list) => list.len(),
        None => 0,
    }
}

/// Appends `element` to the list when both are given; the status tells whether it did.
pub fn vs_append<T>(list: Option<&VoluntaryServitude<T>>, element: Option<T>) -> (code: u8)
    ensures
        code == status(list is Some && element is Some),
{
    match (list, element) {
        (Some(list), Some(element)) => {
            list.append(element);
            0
        },
        _ => 1,
    }
}

/// Clears the list when given; the status tells whether it did.
pub fn vs_clear<T>(list: Option<&VoluntaryServitude<T>>) -> (code: u8)
    ensures
        code == status(list is Some),
{
    match list {
        Some(list) => {
            list.clear();
            0
        },
        None => 1,
    }
}

/// Clears the list and returns an iterator over its old elements, or `None` for a NULL list.
pub fn vs_empty<T>(list: Option<&VoluntaryServitude<T>>) -> (iter: Option<Iter<T>>)
    ensures
        iter is Some <==> list is Some,
        iter matches Some(it) ==> it.position() == 0,
        iter matches Some(it) ==> it.on_known(),
{
    match list {
        Some(list) => Some(list.empty()),
        None => None,
    }
}

/// The elements whose memory the C caller asked to release, in order, when the chain they belong
/// to is no longer shared: what `release` finds in a chain that comes back from its last owner.
pub fn chain_to_release<T>(chain: Option<Inner<T>>, release: bool) -> (elements: Vec<Arc<T>>)
    ensures
        !release ==> elements@.len() == 0,
        chain is None ==> elements@.len() == 0,
        release && chain is Some ==> elements@.len() >= chain->0.known().len()
            && elements@.take(chain->0.known().len() as int) == chain->0.known(),
{
    match chain {
        Some(inner) => if release {
            inner.into_inner()
        } else {
            Vec::new()
        },
        None => Vec::new(),
    }
}

/// Destroys the list: the status, and the elements to release (see [`chain_to_release`]).
pub fn vs_destroy<T>(list: Option<VoluntaryServitude<T>>, release: bool) -> (outcome: (
    u8,
    Vec<Arc<T>>,
))
    ensures
        outcome.0 == status(list is Some),
        !release ==> outcome.1@.len() == 0,
        list is None ==> outcome.1@.len() == 0,
{
    match list {
        Some(list) => (0, chain_to_release(list.try_unwrap(), release)),
        None => (1, Vec::new()),
    }
}

/// The next element of the iterator, or `None` for a NULL or exhausted iterator.
pub fn vs_iter_next<T>(iter: Option<&mut Iter<T>>) -> (element: Option<Arc<T>>)
    ensures
        iter is None ==> element is None,
        iter matches Some(it) ==> element == it.pending(),
{
    match iter {
        Some(iter) => iter.next(),
        None => None,
    }
}

/// The iterator's length, or 0 for a NULL iterator.
pub fn vs_iter_len<T>(iter: Option<&Iter<T>>) -> (length: usize)
    ensures
        iter is None ==> length == 0,
        iter matches Some(it) ==> (it.pending() is None ==> length == it.position()),
        iter matches Some(it) ==> (it.pending() is Some ==> length >= it.source().known().len()),
        iter matches Some(it) ==> (it.pending() is Some && it.position() < it.source().known().len()
            ==> length > it.position()),
{
    match iter {
        Some(iter) => iter.len(),
        None => 0,
    }
}

/// The iterator's index, or 0 for a NULL iterator.
pub fn vs_iter_index<T>(iter: Option<&Iter<T>>) -> (index: usize)
    ensures
        iter is None ==> index == 0,
        iter matches Some(it) ==> index == it.position(),
{
    match iter {
        Some(iter) => iter.index(),
        None => 0,
    }
}

/// Destroys the iterator: the status, and the elements to release (see [`chain_to_release`]):
/// none when the chain is still held elsewhere, otherwise the chain's elements, beginning with
/// those it was made with.
pub fn vs_iter_destroy<T>(iter: Option<Iter<T>>, release: bool) -> (outcome: (u8, Vec<Arc<T>>))
    ensures
        outcome.0 == status(iter is Some),
        !release ==> outcome.1@.len() == 0,
        iter is None ==> outcome.1@.len() == 0,
        iter matches Some(it) ==> (outcome.1@.len() > 0 ==> (outcome.1@.len()
            >= it.source().known().len() && outcome.1@.take(it.source().known().len() as int)
            == it.source().known())),
{
    match iter {
        Some(iter) => {
            let mut iter = iter;
            (0, chain_to_release(iter.try_unwrap(), release))
        },
        None => (1, Vec::new()),
    }
}

} // verus!
