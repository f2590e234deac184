//! A bounded first-in, first-out window: the newest items up to a fixed
//! capacity, oldest first.

use std::collections::VecDeque;
use vstd::prelude::*;

verus! {

/// The newest `capacity` items of `items`, in their order; all of them when
/// there are no more than `capacity`.
pub open spec fn keep_newest<T>(items: Seq<T>, capacity: nat) -> Seq<T> {
    if items.len() <= capacity {
        items
    } else {
        items.subrange(items.len() - capacity, items.len() as int)
    }
}

/// Contents of a window of the given capacity after `item` arrives at its tail.
pub open spec fn appended<T>(items: Seq<T>, capacity: nat, item: T) -> Seq<T> {
    keep_newest(items.push(item), capacity)
}

/// Contents of a window after every item of `arrivals` has been appended in turn.
pub open spec fn appended_all<T>(items: Seq<T>, capacity: nat, arrivals: Seq<T>) -> Seq<T>
    decreases arrivals.len(),
{
    if arrivals.len() == 0 {
        items
    } else {
        appended_all(appended(items, capacity, arrivals[0]), capacity, arrivals.drop_first())
    }
}

/// A window never outgrows its capacity, whatever is appended to it: after
/// any run of arrivals it holds exactly the newest `capacity` items of what
/// it held before followed by the arrivals, in arrival order. With `k`
/// arrivals beyond a full window the oldest `k` items are gone.
pub proof fn lemma_appended_all<T>(items: Seq<T>, capacity: nat, arrivals: Seq<T>)
    requires
        items.len() <= capacity,
    ensures
        appended_all(items, capacity, arrivals) == keep_newest(items + arrivals, capacity),
        appended_all(items, capacity, arrivals).len() <= capacity,
        appended_all(items, capacity, arrivals).len() == if items.len() + arrivals.len()
            <= capacity {
            items.len() + arrivals.len()
        } else {
            capacity
        },
    decreases arrivals.len(),
{
    if arrivals.len() == 0 {
        assert(items + arrivals =~= items);
    } else {
        let next = appended(items, capacity, arrivals[0]);
        let rest = arrivals.drop_first();
        lemma_appended_all(next, capacity, rest);
        let all = items + arrivals;
        let pushed = items.push(arrivals[0]);
        assert(pushed + rest =~= all);
        assert(keep_newest(next + rest, capacity) =~= keep_newest(all, capacity));
    }
}

/// A bounded buffer that keeps the newest `capacity` items in arrival order
/// and evicts the oldest one when a new item arrives at a full buffer.
pub struct RollingWindow<T> {
    items: VecDeque<T>,
    capacity: usize,
}

impl<T> View for RollingWindow<T> {
    type V = Seq<T>;

    closed spec fn view(&self) -> Seq<T> {
        self.items@
    }
}

impl<T> RollingWindow<T> {
    #[verifier::type_invariant]
    spec fn bounded(&self) -> bool {
        self.items@.len() <= self.capacity
    }

    /// The most items the window ever holds.
    pub closed spec fn spec_capacity(&self) -> nat {
        self.capacity as nat
    }

    /// An empty window that will hold at most `capacity` items.
    pub fn new(capacity: usize) -> (w: Self)
        ensures
            w@ == Seq::<T>::empty(),
            w.spec_capacity() == capacity,
    {
        RollingWindow { items: VecDeque::new(), capacity }
    }

    /// The most items the window ever holds.
    pub fn capacity(&self) -> (c: usize)
        ensures
            c == self.spec_capacity(),
    {
        self.capacity
    }

    /// Number of items held; never more than the capacity.
    pub fn len(&self) -> (n: usize)
        ensures
            n == self@.len(),
            n <= self.spec_capacity(),
    {
        proof {
            use_type_invariant(self);
        }
        self.items.len()
    }

    /// Whether the window holds nothing.
    pub fn is_empty(&self) -> (e: bool)
        ensures
            e == (self@.len() == 0),
    {
        self.items.len() == 0
    }

    /// The item at position `index`, counted from the oldest.
    pub fn get(&self, index: usize) -> (item: &T)
        requires
            index < self@.len(),
        ensures
            *item == self@[index as int],
    {
        &self.items[index]
    }

    /// Puts `item` at the tail; a full window first drops its oldest item.
    pub fn append(&mut self, item: T)
        ensures
            final(self)@ == appended(old(self)@, old(self).spec_capacity(), item),
            final(self).spec_capacity() == old(self).spec_capacity(),
            final(self)@.len() <= final(self).spec_capacity(),
    {
        proof {
            use_type_invariant(&*self);
        }
        if self.capacity == 0 {
            assert(appended(self@, 0, item) =~= self@);
            return ;
        }
        let mut items: VecDeque<T> = VecDeque::new();
        std::mem::swap(&mut self.items, &mut items);
        if items.len() == self.capacity {
            let _ = items.pop_front();
        }
        items.push_back(item);
        assert(items@ =~= appended(old(self)@, old(self).spec_capacity(), item));
        self.items = items;
    }

    /// The items in arrival order, oldest first. Every call starts afresh.
    pub fn iterate(&self) -> (items: Vec<&T>)
        ensures
            items@.len() == self@.len(),
            forall|i: int| 0 <= i < items@.len() ==> *items@[i] == self@[i],
    {
        let mut out: Vec<&T> = Vec::new();
        let mut i: usize = 0;
        while i < self.items.len()
            invariant
                i <= self.items@.len(),
                out@.len() == i,
                forall|j: int| 0 <= j < i ==> *out@[j] == self.items@[j],
            decreases self.items@.len() - i,
        {
            out.push(&self.items[i]);
            i += 1;
        }
        out
    }
}

} // verus!
