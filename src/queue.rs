//! Ordering containers: the pluggable policy that decides which pending job
//! leaves next.
use std::collections::VecDeque;
use vstd::prelude::*;

verus! {

broadcast use vstd::seq_lib::group_to_multiset_ensures;

/// A container of pending items with a removal policy.
///
/// `items` lists the pending items in the order in which they will leave;
/// `enqueued` says where the policy places a new item.
pub trait Queue<T>: Sized {
    spec fn items(&self) -> Seq<T>;

    /// The container's own invariant.
    spec fn wf(&self) -> bool;

    /// Whether `new` is what the policy makes of `old` when `item` arrives.
    spec fn enqueued(old: Seq<T>, new: Seq<T>, item: T) -> bool;

    /// Whatever the policy, an arrival adds exactly the one item.
    proof fn lemma_enqueued(old: Seq<T>, new: Seq<T>, item: T)
        requires
            Self::enqueued(old, new, item),
        ensures
            new.to_multiset() =~= old.to_multiset().insert(item),
            new.len() == old.len() + 1,
    ;

    fn enqueue(&mut self, item: T)
        requires
            old(self).wf(),
        ensures
            final(self).wf(),
            Self::enqueued(old(self).items(), final(self).items(), item),
    ;

    fn dequeue(&mut self) -> (r: Option<T>)
        requires
            old(self).wf(),
        ensures
            final(self).wf(),
            old(self).items().len() == 0 ==> r is None && final(self).items() == old(self).items(),
            old(self).items().len() > 0 ==> r == Some(old(self).items()[0]) && final(self).items()
                == old(self).items().drop_first(),
    ;

    fn len(&self) -> (r: usize)
        ensures
            r == self.items().len(),
    ;

    fn is_empty(&self) -> (r: bool)
        ensures
            r == (self.items().len() == 0),
    {
        self.len() == 0
    }
}

/// First in, first out: items leave in the order in which they arrived.
impl<T> Queue<T> for VecDeque<T> {
    open spec fn items(&self) -> Seq<T> {
        self@
    }

    open spec fn wf(&self) -> bool {
        true
    }

    open spec fn enqueued(old: Seq<T>, new: Seq<T>, item: T) -> bool {
        new == old.push(item)
    }

    proof fn lemma_enqueued(old: Seq<T>, new: Seq<T>, item: T) {
    }

    fn enqueue(&mut self, item: T) {
        self.push_back(item);
    }

    fn dequeue(&mut self) -> (r: Option<T>) {
        self.pop_front()
    }

    fn len(&self) -> (r: usize) {
        VecDeque::len(self)
    }
}

/// Whether `s` is in non-increasing order.
pub open spec fn descending(s: Seq<u64>) -> bool {
    forall|i: int, j: int| 0 <= i <= j < s.len() ==> s[i] >= s[j]
}

/// Greatest first: the pending items are kept in non-increasing order, so the
/// one that leaves is a greatest of them. Among equal items no order is
/// promised.
pub struct MaxQueue {
    v: Vec<u64>,
}

impl MaxQueue {
    pub fn new() -> (r: MaxQueue)
        ensures
            r.wf(),
            r.items() == Seq::<u64>::empty(),
    {
        MaxQueue { v: Vec::new() }
    }

    pub fn with_capacity(capacity: usize) -> (r: MaxQueue)
        ensures
            r.wf(),
            r.items() == Seq::<u64>::empty(),
    {
        MaxQueue { v: Vec::with_capacity(capacity) }
    }
}

impl Queue<u64> for MaxQueue {
    closed spec fn items(&self) -> Seq<u64> {
        self.v@
    }

    open spec fn wf(&self) -> bool {
        descending(self.items())
    }

    open spec fn enqueued(old: Seq<u64>, new: Seq<u64>, item: u64) -> bool {
        &&& new.to_multiset() == old.to_multiset().insert(item)
        &&& descending(old) ==> descending(new)
    }

    proof fn lemma_enqueued(old: Seq<u64>, new: Seq<u64>, item: u64) {
        old.to_multiset_ensures();
        new.to_multiset_ensures();
    }

    fn enqueue(&mut self, item: u64) {
        let mut k: usize = 0;
        while k < self.v.len()
            invariant
                self.v@ == old(self).v@,
                descending(self.v@),
                0 <= k <= self.v@.len(),
                forall|i: int| 0 <= i < k ==> self.v@[i] >= item,
            ensures
                self.v@ == old(self).v@,
                0 <= k <= self.v@.len(),
                forall|i: int| 0 <= i < k ==> self.v@[i] >= item,
                k < self.v@.len() ==> self.v@[k as int] < item,
            decreases self.v@.len() - k,
        {
            if self.v[k] < item {
                break;
            }
            k = k + 1;
        }
        let ghost before = self.v@;
        self.v.insert(k, item);
        proof {
            vstd::seq_lib::to_multiset_insert(before, k as int, item);
            assert forall|i: int, j: int| 0 <= i <= j < self.v@.len() implies self.v@[i]
                >= self.v@[j] by {
                if i < k && j > k {
                    assert(self.v@[j] == before[j - 1]);
                }
                if i == k && j > k {
                    assert(self.v@[j] == before[j - 1]);
                    assert(before[k as int] < item);
                    assert(before[k as int] >= before[j - 1]);
                }
            }
        }
    }

    fn dequeue(&mut self) -> (r: Option<u64>) {
        if self.v.len() == 0 {
            None
        } else {
            let x = self.v.remove(0);
            proof {
                assert(self.v@ =~= old(self).v@.drop_first());
            }
            Some(x)
        }
    }

    fn len(&self) -> (r: usize) {
        self.v.len()
    }
}

/// First in, first out: when `a` and then `b` arrive with no removal in
/// between, `a` stands just ahead of `b`, and stays so whatever is removed
/// from the front or added at the back afterwards; so `a` leaves no later
/// than `b`.
pub proof fn lemma_fifo_order<T>(s: Seq<T>, s1: Seq<T>, s2: Seq<T>, a: T, b: T)
    requires
        <VecDeque<T> as Queue<T>>::enqueued(s, s1, a),
        <VecDeque<T> as Queue<T>>::enqueued(s1, s2, b),
    ensures
        forall|k: int, tail: Seq<T>|
            0 <= k <= s.len() ==> {
                let later = #[trigger] (s2.subrange(k, s2.len() as int) + tail);
                &&& later[s.len() - k] == a
                &&& later[s.len() - k + 1] == b
            },
{
    assert forall|k: int, tail: Seq<T>| 0 <= k <= s.len() implies {
        let later = #[trigger] (s2.subrange(k, s2.len() as int) + tail);
        &&& later[s.len() - k] == a
        &&& later[s.len() - k + 1] == b
    } by {
        assert(s2[s.len() as int] == a);
        assert(s2[s.len() as int + 1] == b);
    }
}

/// Greatest first: the job that a priority queue hands out next is at least
/// as great as every job it holds.
pub proof fn lemma_max_first(q: MaxQueue)
    requires
        q.wf(),
        q.items().len() > 0,
    ensures
        forall|x: u64| q.items().contains(x) ==> q.items()[0] >= x,
{
}

/// Greatest first: when `x` arrives while a smaller `y` waits, every copy of
/// `x` stands ahead of every copy of `y`, so `x` leaves first.
pub proof fn lemma_greater_leaves_first(old: Seq<u64>, new: Seq<u64>, x: u64, y: u64)
    requires
        descending(old),
        <MaxQueue as Queue<u64>>::enqueued(old, new, x),
        old.contains(y),
        y < x,
    ensures
        new.contains(x),
        new.contains(y),
        forall|i: int, j: int|
            0 <= i < new.len() && 0 <= j < new.len() && new[i] == x && new[j] == y ==> i < j,
{
    old.to_multiset_ensures();
    new.to_multiset_ensures();
    assert(new.to_multiset().count(x) > 0);
    assert(new.to_multiset().count(y) > 0);
}

} // verus!
