//! Iterator over a list's chain.
//!
//! The iterator holds the chain it was made from and the element it will yield next, if it
//! has already seen one. It yields that element, then looks for the following one in the chain
//! as it is at that moment: if the chain holds no further element yet, the iterator is
//! exhausted for good, even if elements are appended later.
use crate::cells::{arc_clone, arc_try_unwrap};
use crate::voluntary_servitude::Inner;
use std::sync::Arc;
use vstd::prelude::*;

verus! {

/// Iterator over a [`VoluntaryServitude`](crate::VoluntaryServitude)'s chain.
#[verifier::reject_recursive_types(T)]
pub struct Iter<T> {
    inner: Arc<Inner<T>>,
    cursor: Cursor<T>,
}

/// Where an iterator stands: the element it yields next, if any, and how many it has yielded.
/// The two change together, in one step.
#[verifier::reject_recursive_types(T)]
struct Cursor<T> {
    current: Option<Arc<T>>,
    index: usize,
}

/// What one call of [`Iter::next`] does: it yields the pending element, if any; an iterator
/// with no pending element is left as it was, and one that yields moves one position on.
pub open spec fn advances<T>(before: Iter<T>, after: Iter<T>, item: Option<Arc<T>>) -> bool {
    &&& item == before.pending()
    &&& after.source() == before.source()
    &&& before.pending() is None ==> after == before
    &&& before.pending() is Some ==> after.position() == before.position() + 1
    &&& before.pending() is Some && before.position() + 1 < before.source().known().len()
        ==> after.pending() == Some(before.source().known()[before.position() + 1int])
}

impl<T> Iter<T> {
    #[verifier::type_invariant]
    spec fn well_placed(self) -> bool {
        &&& self.cursor.current is Some ==> self.cursor.index < usize::MAX
        &&& self.on_known()
    }

    /// Number of elements yielded so far.
    pub closed spec fn position(self) -> nat {
        self.cursor.index as nat
    }

    /// The element the next call of `next` yields, if the iterator is not exhausted.
    pub closed spec fn pending(self) -> Option<Arc<T>> {
        self.cursor.current
    }

    /// The chain the iterator walks.
    pub closed spec fn source(self) -> Arc<Inner<T>> {
        self.inner
    }

    /// The iterator has yielded nothing and never will.
    pub open spec fn yields_nothing(self) -> bool {
        self.pending() is None && self.position() == 0
    }

    /// Within the elements its chain was made with, the iterator is where its position says:
    /// the element it yields next is the one at its position.
    pub open spec fn on_known(self) -> bool {
        self.position() < self.source().known().len() ==> self.pending() == Some(
            self.source().known()[self.position() as int],
        )
    }

    /// An iterator at the start of `inner`: it yields the first element, if the chain has one.
    pub fn new(inner: Arc<Inner<T>>) -> (iter: Self)
        ensures
            iter.position() == 0,
            iter.source() == inner,
            iter.on_known(),
            inner.known().len() > 0 ==> iter.pending() == Some(inner.known()[0]),
    {
        let current = inner.first_node();
        Iter { inner, cursor: Cursor { current, index: 0 } }
    }

    /// The iterator itself, to be walked through a mutable reference.
    pub fn iter(&mut self) -> (this: &mut Self)
        ensures
            *this == *old(self),
            *final(self) == *final(this),
    {
        self
    }

    /// Number of elements yielded so far.
    pub fn index(&self) -> (index: usize)
        ensures
            index == self.position(),
    {
        self.cursor.index
    }

    /// Length of the iteration: the position of an exhausted iterator, otherwise the length of
    /// the chain at the moment of the read, which counts at least the elements it was made with.
    /// An element being appended is readable a moment before it is counted, so while the
    /// iterator yields appended elements the count may stand at or below the position.
    pub fn len(&self) -> (length: usize)
        ensures
            self.pending() is None ==> length == self.position(),
            self.pending() is Some ==> length >= self.source().known().len(),
            self.pending() is Some && self.position() < self.source().known().len() ==> length
                > self.position(),
    {
        match self.cursor.current {
            Some(_) => self.inner.len(),
            None => self.cursor.index,
        }
    }

    /// Whether the length is 0: for an exhausted iterator, exactly when it has yielded nothing;
    /// never for an iterator over a chain made with elements that still has one to yield.
    pub fn is_empty(&self) -> (empty: bool)
        ensures
            self.pending() is None ==> (empty == self.yields_nothing()),
            self.pending() is Some && self.source().known().len() > 0 ==> !empty,
    {
        self.len() == 0
    }

    /// Yields the pending element and looks for the following one in the chain.
    pub fn next(&mut self) -> (item: Option<Arc<T>>)
        ensures
            advances(*old(self), *final(self), item),
    {
        proof {
            use_type_invariant(&*self);
        }
        let item = match &self.cursor.current {
            Some(element) => Some(arc_clone(element)),
            None => None,
        };
        if item.is_some() {
            let next_index = self.cursor.index + 1;
            let following = self.inner.get(next_index);
            self.cursor = Cursor { current: following, index: next_index };
        }
        item
    }

    /// Bounds on the number of elements an iteration yields: the position, and the length.
    pub fn size_hint(&self) -> (bounds: (usize, Option<usize>))
        ensures
            bounds.0 == self.position(),
            bounds.1 is Some,
            self.pending() is None ==> bounds.1 == Some(bounds.0),
    {
        (self.cursor.index, Some(self.len()))
    }

    /// Exhausts the iterator and detaches it from its chain, giving the chain back when no
    /// list or other iterator holds it any more.
    pub fn try_unwrap(&mut self) -> (inner: Option<Inner<T>>)
        ensures
            final(self).pending() is None,
            final(self).position() == old(self).position(),
            inner matches Some(chain) ==> chain == *old(self).source(),
    {
        let fresh = Arc::new(Inner::new());
        let mut detached = Iter { inner: fresh, cursor: Cursor { current: None, index: self.cursor.index } };
        std::mem::swap(&mut detached, self);
        let Iter { inner: previous, cursor: _ } = detached;
        arc_try_unwrap(previous)
    }

    /// Yields at most `limit` elements, in order; fewer only when the iterator is exhausted.
    /// Those that lie among the elements its chain was made with are these elements, from the
    /// iterator's position on, and it stops short only past them.
    pub fn take_up_to(&mut self, limit: usize) -> (taken: Vec<Arc<T>>)
        ensures
            taken@.len() <= limit,
            final(self).source() == old(self).source(),
            final(self).position() == old(self).position() + taken@.len(),
            taken@.len() < limit ==> final(self).pending() is None,
            taken@.len() < limit ==> old(self).position() + taken@.len() >= old(
                self,
            ).source().known().len(),
            limit > 0 && old(self).pending() is Some ==> taken@.len() > 0 && taken@[0]
                == old(self).pending()->0,
            forall|i: int|
                0 <= i < taken@.len() && old(self).position() + i < old(
                    self,
                ).source().known().len() ==> #[trigger] taken@[i] == old(
                    self,
                ).source().known()[old(self).position() + i],
    {
        let ghost start = *self;
        let mut taken: Vec<Arc<T>> = Vec::new();
        let mut exhausted = false;
        while !exhausted && taken.len() < limit
            invariant
                taken@.len() <= limit,
                self.source() == start.source(),
                self.position() == start.position() + taken@.len(),
                exhausted ==> self.pending() is None,
                exhausted ==> self.position() >= start.source().known().len(),
                taken@.len() == 0 ==> *self == start,
                limit > 0 && start.pending() is Some && !exhausted ==> taken@.len() > 0 || *self
                    == start,
                taken@.len() > 0 && start.pending() is Some ==> taken@[0] == start.pending()->0,
                forall|i: int|
                    0 <= i < taken@.len() && start.position() + i < start.source().known().len() ==> #[trigger] taken@[i]
                        == start.source().known()[start.position() + i],
            decreases limit - taken@.len(), if exhausted { 0int } else { 1int },
        {
            proof {
                use_type_invariant(&*self);
            }
            let ghost before = *self;
            match self.next() {
                Some(element) => {
                    taken.push(element);
                    assert(before.on_known());
                },
                None => {
                    exhausted = true;
                },
            }
        }
        taken
    }

    /// The last element of the chain at the moment of the read, if any; a chain made with
    /// elements always has one.
    pub fn last_node(&self) -> (element: Option<Arc<T>>)
        ensures
            self.source().known().len() > 0 ==> element is Some,
    {
        self.inner.last_node()
    }
}


impl<T> Clone for Iter<T> {
    /// An iterator at the same position of the same chain, with the same pending element.
    fn clone(&self) -> (copy: Self)
        ensures
            copy == *self,
    {
        proof {
            use_type_invariant(self);
        }
        let current = match &self.cursor.current {
            Some(element) => Some(arc_clone(element)),
            None => None,
        };
        Iter { inner: arc_clone(&self.inner), cursor: Cursor { current, index: self.cursor.index } }
    }
}

/// Once exhausted, an iterator stays exhausted: `next` yields nothing and leaves it unchanged,
/// whatever is appended to its chain meanwhile.
pub proof fn lemma_exhausted_stays_exhausted<T>(
    before: Iter<T>,
    after: Iter<T>,
    item: Option<Arc<T>>,
)
    requires
        advances(before, after, item),
        before.pending() is None,
    ensures
        item is None,
        after == before,
        after.pending() is None,
{
}

/// Having yielded nothing and having nothing to yield is the same before and after every step:
/// such an iterator never starts to yield, and one that has yielded or has something to yield
/// never becomes such an iterator.
pub proof fn lemma_emptiness_is_stable<T>(before: Iter<T>, after: Iter<T>, item: Option<Arc<T>>)
    requires
        advances(before, after, item),
    ensures
        after.yields_nothing() == before.yields_nothing(),
{
}

/// Over the elements its chain was made with, an iterator yields them in order: a step from the
/// element at its position yields that element and leaves the iterator on the following one.
pub proof fn lemma_yields_known_in_order<T>(before: Iter<T>, after: Iter<T>, item: Option<Arc<T>>)
    requires
        advances(before, after, item),
        before.on_known(),
    ensures
        before.position() < before.source().known().len() ==> item == Some(
            before.source().known()[before.position() as int],
        ),
        after.on_known(),
        after.source() == before.source(),
{
}

/// The position counts the elements yielded: each step that yields an element moves it by one,
/// and a step that yields nothing leaves it.
pub proof fn lemma_position_counts_yields<T>(
    before: Iter<T>,
    after: Iter<T>,
    item: Option<Arc<T>>,
)
    requires
        advances(before, after, item),
    ensures
        after.position() == before.position() + if item is Some { 1int } else { 0int },
{
}

} // verus!
