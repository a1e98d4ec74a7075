//! The pending-work store: a priority-ordered collection of tasks from
//! which the highest-priority item is extracted first.

use vstd::prelude::*;

use crate::task::Task;

verus! {

broadcast use vstd::seq_lib::group_to_multiset_ensures;

/// `t`'s priority is greater than or equal to the priority of every task
/// in `s`.
pub open spec fn ge_all(t: Task, s: Seq<Task>) -> bool {
    forall|i: int| 0 <= i < s.len() ==> s[i].priority.rank() <= t.priority.rank()
}

/// The priorities along `s` never increase.
pub open spec fn non_increasing_by_priority(s: Seq<Task>) -> bool {
    forall|i: int, j: int| 0 <= i <= j < s.len() ==> s[j].priority.rank() <= s[i].priority.rank()
}

/// The holding area for work not yet assigned to a worker. Extraction
/// always returns an item whose priority is greatest among those held,
/// chosen arbitrarily among ties; no order is kept within a level.
pub struct PriorityQueue {
    /// The tasks currently held, in no particular order.
    pub data: Vec<Task>,
}

impl View for PriorityQueue {
    type V = Seq<Task>;

    open spec fn view(&self) -> Seq<Task> {
        self.data@
    }
}

impl PriorityQueue {
    /// An empty store.
    pub fn new() -> (r: Self)
        ensures
            r@ == Seq::<Task>::empty(),
    {
        PriorityQueue { data: Vec::new() }
    }

    /// Adds an item to the store.
    pub fn enqueue(&mut self, item: Task)
        ensures
            final(self)@ == old(self)@.push(item),
    {
        self.data.push(item);
    }

    /// Whether the store holds no item.
    pub fn is_empty(&self) -> (r: bool)
        ensures
            r == (self@.len() == 0),
    {
        self.data.is_empty()
    }

    /// How many items the store holds.
    pub fn len(&self) -> (r: usize)
        ensures
            r == self@.len(),
    {
        self.data.len()
    }

    /// Removes and returns an item whose priority is greatest among those
    /// held, or nothing when the store is empty. In particular, on a store
    /// of one item that exact item comes out and the store is left empty.
    pub fn get(&mut self) -> (r: Option<Task>)
        ensures
            old(self)@.len() == 0 ==> r is None && *final(self) == *old(self),
            old(self)@.len() > 0 ==> r is Some && ge_all(r.unwrap(), old(self)@) && exists|i: int|
                0 <= i < old(self)@.len() && r == Some(old(self)@[i]) && final(self)@ == old(
                    self,
                )@.remove(i),
            old(self)@.len() > 0 ==> final(self)@.len() == old(self)@.len() - 1,
            old(self)@.len() == 1 ==> r == Some(old(self)@[0]) && final(self)@.len() == 0,
    {
        if self.data.len() == 0 {
            return None;
        }
        let ghost orig = self.data@;
        let mut best: usize = 0;
        let mut j: usize = 1;
        while j < self.data.len()
            invariant
                self.data@ == orig,
                orig.len() > 0,
                best < j <= orig.len(),
                forall|k: int| 0 <= k < j ==> orig[k].priority.rank() <= orig[
                    best as int
                ].priority.rank(),
            decreases orig.len() - j,
        {
            if matches!(self.data[j].priority.cmp(&self.data[best].priority),
                core::cmp::Ordering::Greater) {
                best = j;
            }
            j += 1;
        }
        let item = self.data.remove(best);
        proof {
            assert(item == orig[best as int]);
            assert(self.data@ == orig.remove(best as int));
        }
        Some(item)
    }

    /// A point-in-time copy of every item held, in no guaranteed order;
    /// the store is not changed.
    pub fn get_queued_items(&self) -> (r: Vec<Task>)
        ensures
            r@ == self@,
    {
        let mut items: Vec<Task> = Vec::new();
        let mut i: usize = 0;
        while i < self.data.len()
            invariant
                i <= self.data@.len(),
                items@.len() == i,
                forall|k: int| 0 <= k < i ==> items@[k] == self.data@[k],
            decreases self.data@.len() - i,
        {
            items.push(self.data[i].clone());
            i += 1;
        }
        proof {
            assert(items@ =~= self@);
        }
        items
    }

    /// Law: repeatedly extracting until the store is empty yields every
    /// item exactly once, in non-increasing priority order, whatever the
    /// order of the insertions that filled the store.
    pub fn drain_in_priority_order(&mut self) -> (r: Vec<Task>)
        ensures
            final(self)@.len() == 0,
            r@.to_multiset() == old(self)@.to_multiset(),
            non_increasing_by_priority(r@),
    {
        let mut drained: Vec<Task> = Vec::new();
        loop
            invariant
                drained@.to_multiset().add(self@.to_multiset()) == old(self)@.to_multiset(),
                non_increasing_by_priority(drained@),
                forall|i: int, j: int|
                    0 <= i < drained@.len() && 0 <= j < self@.len() ==> self@[j].priority.rank()
                        <= drained@[i].priority.rank(),
            decreases self@.len(),
        {
            let ghost pre = self@;
            let ghost pre_drained = drained@;
            match self.get() {
                None => {
                    proof {
                        assert(drained@.to_multiset() =~= old(self)@.to_multiset());
                    }
                    return drained;
                },
                Some(item) => {
                    proof {
                        let i = choose|i: int|
                            0 <= i < pre.len() && Some(item) == Some(pre[i]) && self@ == pre.remove(
                                i,
                            );
                        assert(self@.to_multiset() == pre.to_multiset().remove(pre[i]));
                        assert(pre.to_multiset().contains(item));
                        assert(pre_drained.push(item).to_multiset() =~= pre_drained.to_multiset().insert(item));
                        assert(pre_drained.to_multiset().insert(item).add(
                            pre.to_multiset().remove(item),
                        ) =~= pre_drained.to_multiset().add(pre.to_multiset()));
                        assert(forall|j: int|
                            0 <= j < self@.len() ==> pre.contains(#[trigger] self@[j]));
                    }
                    drained.push(item);
                },
            }
        }
    }
}

} // verus!
