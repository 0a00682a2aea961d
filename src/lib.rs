//! A job queue for a pool of workers: an ordering container behind an
//! optional capacity bound, with a one-way, drain-first shutdown.
//!
//! `JobQueue` is the state that a monitor guards. Each blocking operation is
//! split into a test ("must the caller wait?") and a step that runs once the
//! test is false; the caller that holds the lock waits on the matching
//! condition between the two.
use std::collections::VecDeque;
use std::marker::PhantomData;
use vstd::prelude::*;

pub mod fib;
pub mod queue;

pub use queue::{MaxQueue, Queue};

verus! {

/// The queue has been destroyed: no job goes in or comes out any more.
#[derive(Debug, Clone, Copy, PartialEq, Eq, Structural)]
pub struct QueueClosed;

/// A worker's way of running one job.
pub trait JobHandler<T> {
    fn handle(&mut self, job: T);
}

pub struct JobQueue<T, Q: Queue<T>> {
    capacity: Option<usize>,
    queue: Option<Q>,
    _phantom: PhantomData<T>,
}

impl<T> JobQueue<T, VecDeque<T>> {
    /// An unbounded first-in, first-out queue.
    pub fn new() -> (r: Self)
        ensures
            r.wf(),
            !r.closed(),
            r.pending() == Seq::<T>::empty(),
            r.bound() is None,
    {
        Self::new_from(VecDeque::new(), None)
    }

    /// A first-in, first-out queue that holds at most `cap` jobs.
    pub fn with_capacity(cap: usize) -> (r: Self)
        requires
            cap > 0,
        ensures
            r.wf(),
            !r.closed(),
            r.pending() == Seq::<T>::empty(),
            r.bound() == Some(cap),
    {
        Self::new_from(VecDeque::with_capacity(cap), Some(cap))
    }
}

impl<T, Q: Queue<T>> JobQueue<T, Q> {
    /// The capacity bound, if any.
    pub closed spec fn bound(&self) -> Option<usize> {
        self.capacity
    }

    /// Whether the queue has been destroyed.
    pub closed spec fn closed(&self) -> bool {
        self.queue is None
    }

    /// The pending jobs, in the order in which they will leave.
    pub closed spec fn pending(&self) -> Seq<T> {
        match self.queue {
            Some(q) => q.items(),
            None => Seq::empty(),
        }
    }

    pub closed spec fn wf(&self) -> bool {
        &&& self.capacity matches Some(c) ==> c > 0
        &&& self.queue matches Some(q) ==> {
            &&& q.wf()
            &&& self.capacity matches Some(c) ==> q.items().len() <= c
        }
    }

    /// A push must wait while the queue is live and full.
    pub open spec fn push_must_wait(&self) -> bool {
        &&& !self.closed()
        &&& self.bound() matches Some(c) && self.pending().len() >= c
    }

    /// A pop must wait while the queue is live and empty.
    pub open spec fn pop_must_wait(&self) -> bool {
        !self.closed() && self.pending().len() == 0
    }

    /// A destroy must wait while the queue is live and still holds jobs.
    pub open spec fn destroy_must_wait(&self) -> bool {
        !self.closed() && self.pending().len() > 0
    }

    /// A live queue over the container `q`, bounded by `capacity` if given.
    pub fn new_from(q: Q, capacity: Option<usize>) -> (r: Self)
        requires
            q.wf(),
            capacity matches Some(c) ==> c > 0 && q.items().len() <= c,
        ensures
            r.wf(),
            !r.closed(),
            r.pending() == q.items(),
            r.bound() == capacity,
    {
        JobQueue { capacity, queue: Some(q), _phantom: PhantomData }
    }

    pub fn is_closed(&self) -> (r: bool)
        ensures
            r == self.closed(),
    {
        self.queue.is_none()
    }

    /// The number of pending jobs.
    pub fn len(&self) -> (r: usize)
        ensures
            r == self.pending().len(),
    {
        match &self.queue {
            Some(q) => q.len(),
            None => 0,
        }
    }

    pub fn push_blocked(&self) -> (r: bool)
        ensures
            r == self.push_must_wait(),
    {
        match (&self.queue, self.capacity) {
            (Some(q), Some(c)) => q.len() >= c,
            _ => false,
        }
    }

    pub fn pop_blocked(&self) -> (r: bool)
        ensures
            r == self.pop_must_wait(),
    {
        match &self.queue {
            Some(q) => q.is_empty(),
            None => false,
        }
    }

    pub fn destroy_blocked(&self) -> (r: bool)
        ensures
            r == self.destroy_must_wait(),
    {
        match &self.queue {
            Some(q) => !q.is_empty(),
            None => false,
        }
    }

    /// Adds `job` to a live queue that has room; fails on a destroyed one.
    pub fn push(&mut self, job: T) -> (r: Result<(), QueueClosed>)
        requires
            old(self).wf(),
            !old(self).push_must_wait(),
        ensures
            final(self).wf(),
            final(self).bound() == old(self).bound(),
            final(self).closed() == old(self).closed(),
            old(self).closed() ==> r == Err::<(), QueueClosed>(QueueClosed) && final(self).pending()
                == old(self).pending(),
            !old(self).closed() ==> {
                &&& r is Ok
                &&& Q::enqueued(old(self).pending(), final(self).pending(), job)
                &&& final(self).pending().to_multiset() == old(self).pending().to_multiset().insert(
                    job,
                )
                &&& final(self).pending().len() == old(self).pending().len() + 1
            },
    {
        match &mut self.queue {
            Some(q) => {
                let ghost before = q.items();
                q.enqueue(job);
                proof {
                    Q::lemma_enqueued(before, q.items(), job);
                }
                Ok(())
            },
            None => Err(QueueClosed),
        }
    }

    /// Takes the next job from a live queue that holds one; fails on a
    /// destroyed one.
    pub fn pop(&mut self) -> (r: Result<T, QueueClosed>)
        requires
            old(self).wf(),
            !old(self).pop_must_wait(),
        ensures
            final(self).wf(),
            final(self).bound() == old(self).bound(),
            final(self).closed() == old(self).closed(),
            old(self).closed() ==> r == Err::<T, QueueClosed>(QueueClosed),
            !old(self).closed() ==> r == Ok::<T, QueueClosed>(old(self).pending()[0])
                && final(self).pending() == old(self).pending().drop_first(),
    {
        match &mut self.queue {
            Some(q) => {
                match q.dequeue() {
                    Some(job) => Ok(job),
                    None => Err(QueueClosed),
                }
            },
            None => Err(QueueClosed),
        }
    }

    /// Closes an empty queue for good; a destroyed queue stays as it is.
    pub fn destroy(&mut self)
        requires
            old(self).wf(),
            !old(self).destroy_must_wait(),
        ensures
            final(self).wf(),
            final(self).closed(),
            final(self).bound() == old(self).bound(),
            final(self).pending() == Seq::<T>::empty(),
    {
        self.queue = None;
    }
}

/// Capacity: a live, bounded queue never holds more jobs than its bound, and
/// a push waits exactly when it is full.
pub proof fn lemma_capacity<T, Q: Queue<T>>(q: JobQueue<T, Q>)
    requires
        q.wf(),
    ensures
        forall|c: usize| q.bound() == Some(c) && !q.closed() ==> q.pending().len() <= c,
        forall|c: usize|
            q.bound() == Some(c) ==> (q.push_must_wait() <==> !q.closed() && q.pending().len()
                == c),
        q.bound() is None ==> !q.push_must_wait(),
{
}

/// Drain before close: while jobs are pending, a destroy waits and a pop
/// does not, so every pending job is handed out before any pop can see the
/// queue closed; and a destroyed queue holds no job.
pub proof fn lemma_drain_before_close<T, Q: Queue<T>>(q: JobQueue<T, Q>)
    requires
        q.wf(),
    ensures
        q.pending().len() > 0 ==> !q.closed() && q.destroy_must_wait() && !q.pop_must_wait(),
        q.closed() ==> q.pending().len() == 0,
{
}

/// Rejection after destroy: on a destroyed queue neither push, pop nor
/// destroy waits (and push and pop then fail with `QueueClosed`).
pub proof fn lemma_closed_rejects<T, Q: Queue<T>>(q: JobQueue<T, Q>)
    requires
        q.closed(),
    ensures
        !q.push_must_wait(),
        !q.pop_must_wait(),
        !q.destroy_must_wait(),
{
}

} // verus!
