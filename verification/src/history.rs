//! A bounded first-in, first-out store of curvature pairs.
//!
//! The store is a ring over a vector that never grows past its limit: once
//! the limit is reached, the slot of the oldest item is overwritten by the
//! newest one and the ring's head moves on.

use vstd::prelude::*;

verus! {

/// What a history of `limit` items holds after `item` is appended to `s`:
/// the last `limit` items of `s` followed by `item`.
pub open spec fn retained<T>(s: Seq<T>, limit: nat, item: T) -> Seq<T> {
    let grown = s.push(item);
    if grown.len() <= limit {
        grown
    } else {
        grown.subrange(grown.len() - limit, grown.len() as int)
    }
}

/// What a history of `limit` items holds after the items of `items` were
/// appended to an empty one, in order.
pub open spec fn replay<T>(items: Seq<T>, limit: nat) -> Seq<T>
    decreases items.len(),
{
    if items.len() == 0 {
        Seq::empty()
    } else {
        retained(replay(items.drop_last(), limit), limit, items.last())
    }
}

/// The last `limit` items of `items`, or all of them if there are fewer.
pub open spec fn newest_items<T>(items: Seq<T>, limit: nat) -> Seq<T> {
    if items.len() <= limit {
        items
    } else {
        items.subrange(items.len() - limit, items.len() as int)
    }
}

/// Appending never lets a history that is within its limit exceed it.
pub proof fn lemma_retained_bounded<T>(s: Seq<T>, limit: nat, item: T)
    ensures
        retained(s, limit, item).len() <= limit,
        s.len() < limit ==> retained(s, limit, item) == s.push(item),
{
}

/// A history filled from empty holds exactly the newest `limit` items, oldest
/// first: its length never exceeds the limit, and whatever was appended more
/// than `limit` appends ago is gone.
pub proof fn lemma_replay_keeps_newest<T>(items: Seq<T>, limit: nat)
    ensures
        replay(items, limit) == newest_items(items, limit),
        replay(items, limit).len() <= limit,
    decreases items.len(),
{
    if items.len() > 0 {
        let earlier = items.drop_last();
        lemma_replay_keeps_newest(earlier, limit);
    }
}

/// After `limit + 1` appends to an empty history the first item appended has
/// been evicted: the history holds the other `limit` items, in the order in
/// which they came.
pub proof fn lemma_oldest_is_evicted<T>(items: Seq<T>, limit: nat)
    requires
        items.len() == limit + 1,
    ensures
        replay(items, limit) == items.subrange(1, items.len() as int),
        forall|i: int| 0 <= i < limit ==> replay(items, limit)[i] == items[i + 1],
{
    lemma_replay_keeps_newest(items, limit);
}

/// A first-in, first-out store that keeps at most a fixed number of items.
pub struct History<T> {
    slots: Vec<T>,
    head: usize,
    limit: usize,
}

impl<T> View for History<T> {
    type V = Seq<T>;

    /// The items held, oldest first.
    closed spec fn view(&self) -> Seq<T> {
        self.slots@.subrange(self.head as int, self.slots@.len() as int) + self.slots@.subrange(
            0,
            self.head as int,
        )
    }
}

impl<T> History<T> {
    #[verifier::type_invariant]
    spec fn well_formed(&self) -> bool {
        &&& self.slots@.len() <= self.limit
        &&& self.head <= self.slots@.len()
        &&& self.slots@.len() < self.limit ==> self.head == 0
        &&& self.slots@.len() > 0 ==> self.head < self.slots@.len()
    }

    /// The largest number of items the history keeps.
    pub closed spec fn limit(&self) -> nat {
        self.limit as nat
    }

    /// An empty history that keeps at most `limit` items.
    pub fn new(limit: usize) -> (history: Self)
        ensures
            history@ == Seq::<T>::empty(),
            history.limit() == limit,
    {
        History { slots: Vec::new(), head: 0, limit }
    }

    /// The largest number of items the history keeps.
    pub fn capacity(&self) -> (limit: usize)
        ensures
            limit == self.limit(),
    {
        self.limit
    }

    /// The number of items held.
    pub fn len(&self) -> (len: usize)
        ensures
            len == self@.len(),
            len <= self.limit(),
    {
        proof {
            use_type_invariant(self);
        }
        self.slots.len()
    }

    /// Whether no item is held.
    pub fn is_empty(&self) -> (empty: bool)
        ensures
            empty <==> self@.len() == 0,
    {
        proof {
            use_type_invariant(self);
        }
        self.slots.len() == 0
    }

    /// The item at position `index`, counted from the oldest, if there is one.
    pub fn get(&self, index: usize) -> (item: Option<&T>)
        ensures
            index < self@.len() ==> item == Some(&self@[index as int]),
            index >= self@.len() ==> item is None,
    {
        proof {
            use_type_invariant(self);
        }
        let len = self.slots.len();
        if index >= len {
            None
        } else if index < len - self.head {
            Some(&self.slots[self.head + index])
        } else {
            Some(&self.slots[index - (len - self.head)])
        }
    }

    /// The item appended last, if there is one.
    pub fn newest(&self) -> (item: Option<&T>)
        ensures
            self@.len() > 0 ==> item == Some(&self@.last()),
            self@.len() == 0 ==> item is None,
    {
        let len = self.len();
        if len == 0 {
            None
        } else {
            self.get(len - 1)
        }
    }

    /// Appends `item`; a history that is at its limit first gives up its
    /// oldest item.
    pub fn push(&mut self, item: T)
        ensures
            final(self)@ == retained(old(self)@, old(self).limit(), item),
            final(self).limit() == old(self).limit(),
    {
        proof {
            use_type_invariant(&*self);
        }
        let len = self.slots.len();
        if self.limit == 0 {
            assert(self@ =~= retained(old(self)@, old(self).limit(), item));
        } else if len < self.limit {
            let mut slots: Vec<T> = Vec::new();
            core::mem::swap(&mut self.slots, &mut slots);
            slots.push(item);
            core::mem::swap(&mut self.slots, &mut slots);
            assert(self@ =~= retained(old(self)@, old(self).limit(), item));
        } else {
            let head = self.head;
            self.slots[head] = item;
            self.head = if head + 1 == len {
                0
            } else {
                head + 1
            };
            assert(self@ =~= retained(old(self)@, old(self).limit(), item));
        }
    }
}

} // verus!
