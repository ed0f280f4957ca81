//! A bounded store of the most recent samples.

use std::collections::VecDeque;
use vstd::prelude::*;

verus! {

/// The last `n` items of `s`, in order; all of `s` when it has no more than `n`.
pub open spec fn keep_last<T>(s: Seq<T>, n: nat) -> Seq<T> {
    if s.len() <= n {
        s
    } else {
        s.subrange(s.len() - n, s.len() as int)
    }
}

/// What a store of capacity `capacity` that held `content` holds after
/// `items` were inserted one by one.
pub open spec fn insert_all<T>(content: Seq<T>, items: Seq<T>, capacity: nat) -> Seq<T>
    decreases items.len(),
{
    if items.len() == 0 {
        content
    } else {
        keep_last(insert_all(content, items.drop_last(), capacity).push(items.last()), capacity)
    }
}

/// A store never holds more than its capacity, and what it holds are the
/// last items that came in, in the order in which they came: after `items`
/// were inserted into a store that held `content`, it holds the last
/// `capacity` items of `content` followed by `items`.
pub proof fn lemma_inserts_keep_last<T>(content: Seq<T>, items: Seq<T>, capacity: nat)
    requires
        content.len() <= capacity,
    ensures
        insert_all(content, items, capacity) == keep_last(content + items, capacity),
        insert_all(content, items, capacity).len() <= capacity,
        content.len() + items.len() >= capacity ==> insert_all(content, items, capacity).len()
            == capacity,
    decreases items.len(),
{
    if items.len() > 0 {
        lemma_inserts_keep_last(content, items.drop_last(), capacity);
    }
}

/// After more inserts than an empty store has room for, it holds exactly
/// the last `capacity` items inserted, oldest first.
pub proof fn lemma_overfull_store_holds_the_latest<T>(items: Seq<T>, capacity: nat)
    requires
        items.len() > capacity,
    ensures
        insert_all(Seq::<T>::empty(), items, capacity) == items.subrange(
            items.len() - capacity,
            items.len() as int,
        ),
{
    lemma_inserts_keep_last(Seq::<T>::empty(), items, capacity);
}

/// A first-in, first-out store with a fixed capacity. Once full, each insert
/// evicts the oldest item. Its view is the content, oldest first.
#[derive(Clone, Debug)]
pub struct Samples<T> {
    max_samples: u32,
    inner: VecDeque<T>,
}

impl<T> View for Samples<T> {
    type V = Seq<T>;

    closed spec fn view(&self) -> Seq<T> {
        self.inner@
    }
}

impl<T> Samples<T> {
    /// The store holds no more items than its capacity.
    pub closed spec fn wf(&self) -> bool {
        self.inner@.len() <= self.max_samples
    }

    /// The capacity fixed at construction.
    pub closed spec fn spec_capacity(&self) -> u32 {
        self.max_samples
    }

    /// An empty store that holds at most `max_samples` items.
    pub fn new(max_samples: u32) -> (store: Self)
        ensures
            store.wf(),
            store@ == Seq::<T>::empty(),
            store.spec_capacity() == max_samples,
    {
        Samples { max_samples, inner: VecDeque::new() }
    }

    /// The capacity fixed at construction.
    #[verifier::when_used_as_spec(spec_capacity)]
    pub fn capacity(&self) -> (capacity: u32)
        ensures
            capacity == self.spec_capacity(),
    {
        self.max_samples
    }

    /// The number of items held, never more than the capacity.
    pub fn len(&self) -> (len: usize)
        requires
            self.wf(),
        ensures
            len == self@.len(),
            len <= self.spec_capacity(),
    {
        self.inner.len()
    }

    /// Appends `sample` as the newest item; a full store first drops its
    /// oldest one. A store of capacity zero stays empty.
    pub fn insert(&mut self, sample: T)
        requires
            old(self).wf(),
        ensures
            final(self).wf(),
            final(self)@ == keep_last(old(self)@.push(sample), old(self).spec_capacity() as nat),
            final(self).spec_capacity() == old(self).spec_capacity(),
            final(self)@.len() <= final(self).spec_capacity(),
    {
        if self.max_samples == 0 {
            return ;
        }
        if self.inner.len() == self.max_samples as usize {
            let _ = self.inner.pop_front();
        }
        self.inner.push_back(sample);
    }

    /// Discards every item; the capacity stays.
    pub fn clear(&mut self)
        ensures
            final(self).wf(),
            final(self)@ == Seq::<T>::empty(),
            final(self).spec_capacity() == old(self).spec_capacity(),
    {
        self.inner.clear();
    }
}

impl<T: Copy> Samples<T> {
    /// A copy of the newest `count` items, oldest first; of all of them
    /// where the store holds no more than `count`.
    pub fn last(&self, count: usize) -> (snapshot: Vec<T>)
        ensures
            snapshot@ == keep_last(self@, count as nat),
    {
        let len = self.inner.len();
        let start: usize = if len <= count {
            0
        } else {
            len - count
        };
        let mut snapshot: Vec<T> = Vec::new();
        let mut at: usize = start;
        while at < len
            invariant
                start <= at <= len,
                len == self.inner@.len(),
                snapshot@ == self.inner@.subrange(start as int, at as int),
            decreases len - at,
        {
            snapshot.push(self.inner[at]);
            at = at + 1;
        }
        snapshot
    }

    /// A copy of every item, oldest first.
    pub fn all(&self) -> (snapshot: Vec<T>)
        ensures
            snapshot@ == self@,
    {
        self.last(self.inner.len())
    }
}

} // verus!
