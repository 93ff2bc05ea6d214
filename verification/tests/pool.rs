use worker_pool::pool::ThreadPool;
use worker_pool::worker::WorkerState;

#[test]
fn build_zero_rejected() {
    let r = ThreadPool::build(0);
    match r {
        Ok(_) => panic!("a pool of zero workers must be rejected"),
        Err(e) => {
            assert!(e.is_invalid_size());
            assert_eq!(
                e.message(),
                "ThreadPool size must be greater than zero".to_string()
            );
        }
    }
}

#[test]
fn build_positive_yields_full_pool() {
    let p = ThreadPool::build(4).unwrap();
    assert_eq!(p.size(), 4);
    assert_eq!(p.pending_len(), 0);
    assert_eq!(p.jobs_submitted(), 0);
    assert_eq!(p.jobs_delivered(), 0);
    assert!(!p.queue_closed());
    for w in 0..4 {
        assert_eq!(p.worker_state(w), WorkerState::Waiting);
    }
}

#[test]
fn build_one_worker() {
    let p = ThreadPool::build(1).unwrap();
    assert_eq!(p.size(), 1);
    assert_eq!(p.worker_state(0), WorkerState::Waiting);
}

#[test]
fn delivery_is_fifo_and_exactly_once() {
    let mut p = ThreadPool::build(2).unwrap();
    let mut tickets = Vec::new();
    for _ in 0..5 {
        tickets.push(p.execute());
    }
    assert_eq!(tickets, vec![0, 1, 2, 3, 4]);
    assert_eq!(p.pending_len(), 5);

    let mut delivered = Vec::new();
    while p.pending_len() > 0 {
        let w = (delivered.len()) % 2;
        let t = p.take_job(w).unwrap();
        delivered.push(t);
        p.finish_job(w);
    }
    assert_eq!(delivered, vec![0, 1, 2, 3, 4]);
    assert_eq!(p.jobs_delivered(), 5);
}

#[test]
fn counter_reaches_k_more_jobs_than_workers() {
    let n = 3;
    let k = 10u64;
    let mut p = ThreadPool::build(n).unwrap();
    for _ in 0..k {
        p.execute();
    }
    let mut counter = 0u64;
    let mut w = 0;
    while p.pending_len() > 0 {
        p.take_job(w).unwrap();
        counter += 1;
        p.finish_job(w);
        w = (w + 1) % n;
    }
    assert_eq!(counter, k);
    assert_eq!(p.jobs_delivered(), k);
    assert_eq!(p.jobs_submitted(), k);
}

#[test]
fn counter_reaches_k_fewer_jobs_than_workers() {
    let mut p = ThreadPool::build(5).unwrap();
    p.execute();
    p.execute();
    assert_eq!(p.take_job(0), Some(0));
    assert_eq!(p.take_job(1), Some(1));
    // The queue is drained after two deliveries; excess workers stay idle.
    assert_eq!(p.take_job(2), None);
    assert_eq!(p.worker_state(2), WorkerState::Waiting);
    assert_eq!(p.worker_state(3), WorkerState::Waiting);
    assert_eq!(p.worker_state(4), WorkerState::Waiting);
    assert_eq!(p.jobs_delivered(), 2);
}

#[test]
fn each_job_goes_to_exactly_one_worker() {
    let mut p = ThreadPool::build(2).unwrap();
    p.execute();
    p.execute();
    // Worker 0 wins the first job; only worker 0 changes state, and the
    // job leaves the queue so nobody else can receive it.
    let a = p.take_job(0).unwrap();
    assert_eq!(p.worker_state(0), WorkerState::Executing);
    assert_eq!(p.worker_state(1), WorkerState::Waiting);
    assert_eq!(p.pending_len(), 1);
    // Worker 1 gets the other job, never the same one.
    let b = p.take_job(1).unwrap();
    assert_ne!(a, b);
    assert_eq!(p.pending_len(), 0);
}

#[test]
fn take_on_empty_queue_changes_nothing() {
    let mut p = ThreadPool::build(2).unwrap();
    assert_eq!(p.take_job(0), None);
    assert_eq!(p.worker_state(0), WorkerState::Waiting);
    assert_eq!(p.jobs_delivered(), 0);
}

#[test]
fn slow_jobs_occupy_all_workers_in_parallel() {
    // Four slow jobs on four workers: each occupies exactly one worker,
    // and all four can be mid-execution at the same time.
    let mut p = ThreadPool::build(4).unwrap();
    for _ in 0..4 {
        p.execute();
    }
    for w in 0..4 {
        p.take_job(w).unwrap();
    }
    for w in 0..4 {
        assert_eq!(p.worker_state(w), WorkerState::Executing);
    }
    assert_eq!(p.pending_len(), 0);
    for w in 0..4 {
        p.finish_job(w);
        assert_eq!(p.worker_state(w), WorkerState::Waiting);
    }
}

#[test]
fn teardown_joins_every_worker() {
    let n = 3;
    let mut p = ThreadPool::build(n).unwrap();
    p.execute();
    let t = p.take_job(1).unwrap();
    assert_eq!(t, 0);
    p.finish_job(1);
    let joined = p.shutdown();
    assert_eq!(joined, n);
    assert!(p.queue_closed());
    for w in 0..n {
        assert_eq!(p.worker_state(w), WorkerState::Terminated);
    }
}

#[test]
fn close_stops_nothing_else() {
    let mut p = ThreadPool::build(2).unwrap();
    p.execute();
    p.close();
    assert!(p.queue_closed());
    // A job still queued at closure is drained by a waiting worker.
    assert_eq!(p.take_job(0), Some(0));
    p.finish_job(0);
    assert_eq!(p.pending_len(), 0);
}
