use std::collections::VecDeque;

use job_queue::{JobHandler, JobQueue, MaxQueue, Queue, QueueClosed};

struct Recorder {
    seen: Vec<u64>,
}

impl JobHandler<u64> for Recorder {
    fn handle(&mut self, job: u64) {
        self.seen.push(job);
    }
}

/// One worker's turn: pop if a job is ready, hand it to the handler.
/// Returns false once the queue reports that it is closed.
fn worker_step<Q: Queue<u64>>(q: &mut JobQueue<u64, Q>, h: &mut Recorder) -> bool {
    if q.pop_blocked() {
        return true;
    }
    match q.pop() {
        Ok(job) => {
            h.handle(job);
            true
        }
        Err(QueueClosed) => false,
    }
}

/// Teardown as the pool does it: workers drain, then the queue closes and
/// every worker sees the closure.
fn drain_and_close<Q: Queue<u64>>(q: &mut JobQueue<u64, Q>, workers: &mut [Recorder]) {
    let mut turn: usize = 0;
    while q.destroy_blocked() {
        let n = workers.len();
        assert!(worker_step(q, &mut workers[turn % n]));
        turn += 1;
    }
    q.destroy();
    for w in workers.iter_mut() {
        assert!(!worker_step(q, w));
    }
}

#[test]
fn fifo_single_worker_records_in_order() {
    let mut q: JobQueue<u64, VecDeque<u64>> = JobQueue::new();
    let mut workers = vec![Recorder { seen: Vec::new() }];
    for x in [1u64, 2, 3] {
        assert!(!q.push_blocked());
        assert_eq!(q.push(x), Ok(()));
    }
    drain_and_close(&mut q, &mut workers);
    assert_eq!(workers[0].seen, vec![1, 2, 3]);
}

#[test]
fn bounded_push_returns_only_after_first_job_starts() {
    let mut q: JobQueue<u64, VecDeque<u64>> = JobQueue::with_capacity(1);
    let mut w = Recorder { seen: Vec::new() };
    assert_eq!(q.push(10), Ok(()));
    assert!(q.push_blocked());
    assert!(w.seen.is_empty());
    assert!(worker_step(&mut q, &mut w));
    assert_eq!(w.seen, vec![10]);
    assert!(!q.push_blocked());
    assert_eq!(q.push(20), Ok(()));
    let mut workers = vec![w];
    drain_and_close(&mut q, &mut workers);
    assert_eq!(workers[0].seen, vec![10, 20]);
}

#[test]
fn priority_gate_handles_in_descending_order() {
    let mut q = JobQueue::new_from(MaxQueue::new(), None);
    for x in [3u64, 1, 4, 1, 5] {
        assert_eq!(q.push(x), Ok(()));
    }
    let mut workers = vec![Recorder { seen: Vec::new() }];
    drain_and_close(&mut q, &mut workers);
    assert_eq!(workers[0].seen, vec![5, 4, 3, 1, 1]);
}

#[test]
fn four_workers_handle_each_job_once() {
    let mut q: JobQueue<u64, VecDeque<u64>> = JobQueue::new();
    let mut workers: Vec<Recorder> = (0..4).map(|_| Recorder { seen: Vec::new() }).collect();
    for x in 0..1000u64 {
        assert_eq!(q.push(x), Ok(()));
        if x % 3 == 0 {
            let k = (x % 4) as usize;
            assert!(worker_step(&mut q, &mut workers[k]));
        }
    }
    drain_and_close(&mut q, &mut workers);
    let mut all: Vec<u64> = workers.iter().flat_map(|w| w.seen.iter().copied()).collect();
    assert_eq!(all.len(), 1000);
    all.sort();
    all.dedup();
    assert_eq!(all, (0..1000u64).collect::<Vec<u64>>());
}

#[test]
fn every_pending_job_is_delivered_before_closure() {
    let mut q: JobQueue<u64, VecDeque<u64>> = JobQueue::new();
    for x in 0..5u64 {
        assert_eq!(q.push(x), Ok(()));
    }
    let mut delivered = Vec::new();
    while q.destroy_blocked() {
        assert!(!q.pop_blocked());
        delivered.push(q.pop().unwrap());
    }
    q.destroy();
    assert_eq!(delivered, vec![0, 1, 2, 3, 4]);
    assert_eq!(q.pop(), Err(QueueClosed));
    assert_eq!(q.push(9), Err(QueueClosed));
}
