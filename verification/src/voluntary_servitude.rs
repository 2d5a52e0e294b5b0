//! The appendable list: [`Inner`], the chain of elements that iterators share, and
//! [`VoluntaryServitude`], the list that owns the current chain.
use crate::cells::{arc_clone, arc_try_unwrap, once_empty, once_get, once_set, segment_get_or_init};
use crate::iterator::Iter;
use crate::locks::{lock_into_inner, lock_new, lock_read_clone, lock_replace, lock_swap};
use crate::segments::{locate, SEGMENTS};
use std::sync::atomic::{AtomicUsize, Ordering};
use std::sync::{Arc, OnceLock};
use vstd::prelude::*;
use vstd::rwlock::{RwLock, RwLockPredicate};

verus! {

/// The elements that `items` point to, in order.
pub open spec fn pointees<T>(items: Seq<Arc<T>>) -> Seq<T> {
    items.map_values(|item: Arc<T>| *item)
}

/// Moves each value behind its own shared pointer, keeping their order.
pub fn share_all<T>(values: Vec<T>) -> (shared: Vec<Arc<T>>)
    ensures
        pointees(shared@) == values@,
{
    let mut reversed: Vec<T> = Vec::new();
    let mut rest = values;
    let ghost given = rest@;
    while rest.len() > 0
        invariant
            given == rest@ + reversed@.reverse(),
        decreases rest@.len(),
    {
        let ghost before = reversed@;
        let value = rest.pop().unwrap();
        reversed.push(value);
        assert(reversed@.reverse() =~= seq![value] + before.reverse());
        assert(given =~= rest@ + reversed@.reverse());
    }
    let mut shared: Vec<Arc<T>> = Vec::new();
    while reversed.len() > 0
        invariant
            given == pointees(shared@) + reversed@.reverse(),
        decreases reversed@.len(),
    {
        let ghost before = reversed@;
        let value = reversed.pop().unwrap();
        assert(before.reverse() =~= seq![value] + reversed@.reverse());
        shared.push(Arc::new(value));
        assert(given =~= pointees(shared@) + reversed@.reverse());
    }
    shared
}

/// Any number may stand as the next free position: the chain's methods reserve positions and
/// check that they stay below `usize::MAX`.
pub struct AnyPosition;

impl RwLockPredicate<usize> for AnyPosition {
    open spec fn inv(self, next: usize) -> bool {
        true
    }
}

/// The chain of elements of a list, shared by the list and by its iterators.
///
/// Elements are only added at its end. A list that is cleared starts a new chain; the old one
/// lives as long as an iterator holds it. The elements a chain is made with stay in a vector of
/// their own; an append reserves the next free positions after them, fills them, and then counts
/// them in the length; reading an element takes no lock. What an append adds depends on the
/// appends of other threads, so the reads below state exactly only what concerns the elements
/// the chain was made with ([`Inner::known`]), which no append can change.
#[verifier::reject_recursive_types(T)]
pub struct Inner<T> {
    base: Vec<Arc<T>>,
    size: AtomicUsize,
    reserved: RwLock<usize, AnyPosition>,
    segments: Vec<OnceLock<Box<Vec<OnceLock<Arc<T>>>>>>,
}

impl<T> Inner<T> {
    #[verifier::type_invariant]
    spec fn has_every_segment(self) -> bool {
        self.segments@.len() == SEGMENTS
    }

    /// The elements the chain was made with: the first positions of the chain, for good.
    pub closed spec fn known(self) -> Seq<Arc<T>> {
        self.base@
    }

    /// A chain made with `base`, to which nothing has been appended.
    fn with_base(base: Vec<Arc<T>>) -> (inner: Self)
        ensures
            inner.known() == base@,
    {
        let mut segments: Vec<OnceLock<Box<Vec<OnceLock<Arc<T>>>>>> = Vec::new();
        let mut made: usize = 0;
        while made < SEGMENTS
            invariant
                made <= SEGMENTS,
                segments@.len() == made,
            decreases SEGMENTS - made,
        {
            segments.push(once_empty());
            made = made + 1;
        }
        Inner {
            base,
            size: AtomicUsize::new(0),
            reserved: RwLock::new(0, Ghost(AnyPosition)),
            segments,
        }
    }

    /// An empty chain.
    pub fn new() -> (inner: Self)
        ensures
            inner.known() == Seq::<Arc<T>>::empty(),
    {
        Self::with_base(Vec::new())
    }

    /// A chain made with `values`, in order.
    pub fn from_vec(values: Vec<T>) -> (inner: Self)
        ensures
            pointees(inner.known()) == values@,
    {
        Self::with_base(share_all(values))
    }

    /// Number of elements in the chain at the moment of the read: those it was made with and the
    /// appends completed so far. It is never below the number it was made with.
    pub fn len(&self) -> (length: usize)
        ensures
            length >= self.known().len(),
    {
        let appended = self.size.load(Ordering::SeqCst);
        let made_with = self.base.len();
        if appended > usize::MAX - made_with {
            usize::MAX
        } else {
            made_with + appended
        }
    }

    /// Whether the chain held no element at the moment of the read; never true of a chain made
    /// with elements.
    pub fn is_empty(&self) -> (empty: bool)
        ensures
            self.known().len() > 0 ==> !empty,
    {
        self.len() == 0
    }

    /// The element at `position`, if it has been written at the moment of the read: one of the
    /// elements the chain was made with, always there, or an appended one. A position that holds
    /// an element is below `usize::MAX`.
    pub fn get(&self, position: usize) -> (element: Option<Arc<T>>)
        ensures
            element is Some ==> position < usize::MAX,
            position < self.known().len() ==> element == Some(self.known()[position as int]),
    {
        proof {
            use_type_invariant(self);
        }
        if position < self.base.len() {
            return Some(arc_clone(&self.base[position]));
        }
        if position == usize::MAX {
            return None;
        }
        let appended = position - self.base.len();
        let (segment, offset, _length) = locate(appended);
        match once_get(&self.segments[segment]) {
            Some(boxed) => {
                let slots: &Vec<OnceLock<Arc<T>>> = &**boxed;
                if offset < slots.len() {
                    match once_get(&slots[offset]) {
                        Some(element) => Some(arc_clone(element)),
                        None => None,
                    }
                } else {
                    None
                }
            },
            None => None,
        }
    }

    /// Writes `item` at the appended position `appended`, allocating its segment if no thread
    /// has done so yet. Segments are made only here, each with the length [`locate`] gives for
    /// it, so the slot is always there; what a segment cell holds is not part of its model, so
    /// the length of a segment allocated by another call is not stated, and the write is
    /// guarded by a test of it.
    fn store(&self, appended: usize, item: Arc<T>)
        requires
            appended < usize::MAX,
    {
        proof {
            use_type_invariant(self);
        }
        let (segment, offset, length) = locate(appended);
        let slots = segment_get_or_init(&self.segments[segment], length);
        if offset < slots.len() {
            let _written = once_set(&slots[offset], item);
        }
    }

    /// The first element of the chain, if any.
    pub fn first_node(&self) -> (element: Option<Arc<T>>)
        ensures
            self.known().len() > 0 ==> element == Some(self.known()[0]),
    {
        self.get(0)
    }

    /// The last element counted in the length at the moment of the read, if any. While another
    /// thread's append is counted but not yet readable, it is the last element the chain was made
    /// with; a chain made with elements always has a last one.
    pub fn last_node(&self) -> (element: Option<Arc<T>>)
        ensures
            self.known().len() > 0 ==> element is Some,
    {
        let length = self.len();
        if length == 0 {
            return None;
        }
        match self.get(length - 1) {
            Some(element) => Some(element),
            None => {
                let made_with = self.base.len();
                if made_with > 0 {
                    Some(arc_clone(&self.base[made_with - 1]))
                } else {
                    None
                }
            },
        }
    }

    /// Reserves appended positions for `count` elements: the first of them, or `None` when the
    /// chain cannot hold that many more below `usize::MAX`.
    fn reserve(&self, count: usize) -> (first: Option<usize>)
        ensures
            first matches Some(start) ==> self.known().len() + start + count <= usize::MAX,
    {
        let room = usize::MAX - self.base.len();
        let (next, writer) = self.reserved.acquire_write();
        if next > room || count > room - next {
            writer.release_write(next);
            None
        } else {
            writer.release_write(next + count);
            Some(next)
        }
    }

    /// Appends `items` at the end of the chain, in order and with no other element between them.
    /// The first of them is written last, so a reader finds either none of them or all of them.
    /// A chain holds fewer than `usize::MAX` elements; items beyond are not stored.
    pub fn append_chain(&self, items: Vec<Arc<T>>) {
        let count = items.len();
        match self.reserve(count) {
            Some(start) => {
                let mut items = items;
                let mut position = start + count;
                while items.len() > 0
                    invariant
                        start + count <= usize::MAX,
                        start <= position,
                        position - start == items@.len(),
                    decreases items@.len(),
                {
                    let item = items.pop().unwrap();
                    position = position - 1;
                    self.store(position, item);
                }
                let _previous = self.size.fetch_add(count, Ordering::SeqCst);
            },
            None => {},
        }
    }

    /// Appends `value` at the end of the chain.
    pub fn append(&self, value: T) {
        let mut items: Vec<Arc<T>> = Vec::new();
        items.push(Arc::new(value));
        self.append_chain(items);
    }

    /// The elements the chain was made with, in order.
    fn copy_known(&self) -> (copy: Vec<Arc<T>>)
        ensures
            copy@ == self.known(),
    {
        let mut copy: Vec<Arc<T>> = Vec::new();
        let mut position: usize = 0;
        while position < self.base.len()
            invariant
                position <= self.base@.len(),
                copy@ == self.base@.take(position as int),
            decreases self.base@.len() - position,
        {
            copy.push(arc_clone(&self.base[position]));
            position = position + 1;
            assert(copy@ =~= self.base@.take(position as int));
        }
        assert(self.base@.take(position as int) =~= self.base@);
        copy
    }

    /// The elements of the chain, in order, up to the first position not written: first those
    /// it was made with, then the appended ones. Nobody else can hold the chain any more.
    pub fn into_inner(self) -> (elements: Vec<Arc<T>>)
        ensures
            elements@.len() >= self.known().len(),
            elements@.take(self.known().len() as int) == self.known(),
    {
        let mut elements = self.copy_known();
        let ghost known = self.known();
        let mut position: usize = elements.len();
        let mut done = position == usize::MAX;
        while !done
            invariant
                known == self.known(),
                elements@.len() >= known.len(),
                elements@.take(known.len() as int) == known,
                !done ==> elements@.len() == position && position < usize::MAX,
            decreases usize::MAX - elements@.len(), if done { 0int } else { 1int },
        {
            match self.get(position) {
                Some(element) => {
                    elements.push(element);
                    assert(elements@.take(known.len() as int) =~= known);
                    if position + 1 < usize::MAX {
                        position = position + 1;
                    } else {
                        done = true;
                    }
                },
                None => {
                    done = true;
                },
            }
        }
        elements
    }
}

/// Appendable list shared between threads, whose iterators take no lock (also called [`VS`]).
///
/// The list owns a chain ([`Inner`]); appends go to its end, and an iterator made from the list
/// shares the chain, so it sees what is appended while it has not been exhausted. Clearing the
/// list gives it a new chain and leaves the old one to the iterators that hold it.
#[verifier::reject_recursive_types(T)]
pub struct VoluntaryServitude<T> {
    current: parking_lot::RwLock<Arc<Inner<T>>>,
}

/// Short name of [`VoluntaryServitude`].
pub type VS<T> = VoluntaryServitude<T>;

impl<T> VoluntaryServitude<T> {
    /// An empty list.
    pub fn new() -> Self {
        Self::from_inner(Inner::new())
    }

    /// A list that owns `inner`.
    pub fn from_inner(inner: Inner<T>) -> Self {
        VoluntaryServitude { current: lock_new(Arc::new(inner)) }
    }

    /// A list of `values`, in order.
    pub fn from_vec(values: Vec<T>) -> Self {
        Self::from_inner(Inner::from_vec(values))
    }

    /// Appends `value` at the end of the list's current chain: the chain the list owns when the
    /// call reads it, which a `clear` made meanwhile does not change.
    pub fn append(&self, value: T) {
        lock_read_clone(&self.current).append(value)
    }

    /// Appends `values` at the end of the list's current chain, in order and with no other
    /// element between them.
    pub fn extend(&self, values: Vec<T>) {
        let items = share_all(values);
        lock_read_clone(&self.current).append_chain(items)
    }

    /// An iterator over the list's current chain, at its start.
    pub fn iter(&self) -> (iter: Iter<T>)
        ensures
            iter.position() == 0,
            iter.on_known(),
    {
        Iter::new(lock_read_clone(&self.current))
    }

    /// Number of elements in the list at the moment of the read.
    pub fn len(&self) -> usize {
        lock_read_clone(&self.current).len()
    }

    /// Whether the list held no element at the moment of the read.
    pub fn is_empty(&self) -> bool {
        lock_read_clone(&self.current).is_empty()
    }

    /// Gives the list a new, empty chain; iterators over the old chain go on with it.
    pub fn clear(&self) {
        let _previous = lock_replace(&self.current, Arc::new(Inner::new()));
    }

    /// Gives the list a new, empty chain and returns an iterator, at its start, over the old one.
    pub fn empty(&self) -> (iter: Iter<T>)
        ensures
            iter.position() == 0,
            iter.on_known(),
    {
        let previous = lock_replace(&self.current, Arc::new(Inner::new()));
        Iter::new(previous)
    }

    /// Consumes the list, giving back its chain when no iterator holds it any more.
    pub fn try_unwrap(self) -> (inner: Option<Inner<T>>) {
        arc_try_unwrap(lock_into_inner(self.current))
    }

    /// Exchanges the chains of the two lists, holding both lists' locks during the exchange.
    /// Swapping a list with itself leaves it unchanged (both locks would be the same lock, which
    /// cannot be taken twice). Two threads swapping the same two lists in opposite orders wait
    /// on each other, as with any two locks taken in turn.
    pub fn swap(&self, other: &Self) {
        lock_swap(&self.current, &other.current);
    }
}

impl<T> Default for VoluntaryServitude<T> {
    /// An empty list.
    fn default() -> Self {
        Self::new()
    }
}

} // verus!
