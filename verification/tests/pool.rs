//! Tests of the pool protocol, driven sequentially: jobs and terminate
//! markers are queued first, then each worker context is stepped to
//! completion in this thread, then the pool joins the exited workers.

use std::sync::{Arc, Mutex};

use multi_thread_web_server::{PoolError, ThreadPool, WorkerContext};

/// Steps one worker context until its loop ends, returning its identifier.
fn run_context(ctx: WorkerContext) -> usize {
    let id = ctx.id();
    let mut cur = Some(ctx);
    while let Some(c) = cur {
        cur = c.step();
    }
    id
}

fn run_all(ctxs: Vec<WorkerContext>) -> Vec<usize> {
    ctxs.into_iter().map(run_context).collect()
}

#[test]
fn create_thread_pool() {
    let (mut pool, ctxs) = ThreadPool::new(4).unwrap();
    let ids = pool.worker_ids();
    for id in 0..4 {
        assert_eq!(ids[id], id);
    }
    assert_eq!(pool.send_terminates(), 4);
    run_all(ctxs);
    let joined = pool.join_all();
    assert_eq!(joined, vec![0, 1, 2, 3]);
}

#[test]
fn create_worker() {
    let (mut pool, ctxs) = ThreadPool::new(2).unwrap();
    let worker_one = &ctxs[1];
    assert_eq!(1, worker_one.id());
    assert_eq!(1, pool.worker_ids()[1]);
    pool.send_terminates();
    run_all(ctxs);
    pool.join_all();
}

#[test]
fn construct_succeeds_for_each_positive_size() {
    for size in 1..=6 {
        let (mut pool, ctxs) = ThreadPool::new(size).unwrap();
        let ids = pool.worker_ids();
        assert_eq!(ids.len(), size);
        assert_eq!(ctxs.len(), size);
        for (i, ctx) in ctxs.iter().enumerate() {
            assert_eq!(ctx.id(), i);
        }
        for i in 0..size {
            assert_eq!(ids[i], i);
            for j in 0..size {
                if i != j {
                    assert_ne!(ids[i], ids[j]);
                }
            }
        }
        pool.send_terminates();
        run_all(ctxs);
        pool.join_all();
    }
}

#[test]
fn construct_rejects_zero_size() {
    let r = ThreadPool::new(0);
    assert!(matches!(r, Err(PoolError::ConfigurationError)));
}

#[test]
fn every_job_runs_exactly_once() {
    let (mut pool, ctxs) = ThreadPool::new(3).unwrap();
    let log: Arc<Mutex<Vec<usize>>> = Arc::new(Mutex::new(Vec::new()));
    for i in 0..10 {
        let log = Arc::clone(&log);
        pool.execute(move || {
            log.lock().unwrap().push(i);
        })
        .unwrap();
    }
    assert_eq!(pool.send_terminates(), 3);
    run_all(ctxs);
    pool.join_all();
    let mut seen = log.lock().unwrap().clone();
    seen.sort();
    assert_eq!(seen, (0..10).collect::<Vec<usize>>());
}

#[test]
fn submit_never_waits_for_a_free_worker() {
    // No worker context is stepped while submitting: every worker is as good
    // as occupied, yet each submission is accepted at once.
    let (mut pool, ctxs) = ThreadPool::new(1).unwrap();
    let count = Arc::new(Mutex::new(0usize));
    for _ in 0..5 {
        let count = Arc::clone(&count);
        let r = pool.execute(move || {
            *count.lock().unwrap() += 1;
        });
        assert!(r.is_ok());
    }
    pool.send_terminates();
    run_all(ctxs);
    pool.join_all();
    assert_eq!(*count.lock().unwrap(), 5);
}

#[test]
fn single_worker_runs_jobs_in_submission_order() {
    let (mut pool, ctxs) = ThreadPool::new(1).unwrap();
    let log: Arc<Mutex<Vec<char>>> = Arc::new(Mutex::new(Vec::new()));
    let slow = Arc::clone(&log);
    pool.execute(move || {
        // The slow job: busy for a while before recording its completion.
        let start = std::time::Instant::now();
        while start.elapsed() < std::time::Duration::from_millis(50) {}
        slow.lock().unwrap().push('a');
    })
    .unwrap();
    let quick = Arc::clone(&log);
    pool.execute(move || {
        quick.lock().unwrap().push('b');
    })
    .unwrap();
    pool.send_terminates();
    run_all(ctxs);
    pool.join_all();
    assert_eq!(*log.lock().unwrap(), vec!['a', 'b']);
}

#[test]
fn terminate_stops_exactly_one_worker() {
    let (mut pool, ctxs) = ThreadPool::new(2).unwrap();
    assert_eq!(pool.send_terminates(), 2);
    let mut stopped = 0;
    for ctx in ctxs {
        // One step per context: the first message each sees is one Terminate.
        if ctx.step().is_none() {
            stopped += 1;
        }
    }
    assert_eq!(stopped, 2);
    let joined = pool.join_all();
    assert_eq!(joined, vec![0, 1]);
}

#[test]
fn shutdown_sends_one_terminate_per_worker_and_joins_all() {
    let (mut pool, ctxs) = ThreadPool::new(3).unwrap();
    assert_eq!(pool.send_terminates(), 3);
    let ran = run_all(ctxs);
    assert_eq!(ran, vec![0, 1, 2]);
    let joined = pool.join_all();
    assert_eq!(joined, vec![0, 1, 2]);
    // The pool is empty now: nothing left to terminate or join.
    assert_eq!(pool.send_terminates(), 0);
    assert_eq!(pool.join_all(), Vec::<usize>::new());
}

#[test]
fn shutdown_reports_terminates_and_joins_in_construction_order() {
    let (mut pool, ctxs) = ThreadPool::new(2).unwrap();
    pool.send_terminates();
    run_all(ctxs);
    // The workers are already gone, so the blocking shutdown completes at
    // once, reporting one Terminate per worker and each worker joined once.
    let (terminates, joined) = pool.shutdown();
    assert_eq!(terminates, 2);
    assert_eq!(joined, vec![0, 1]);
}

#[test]
fn submit_after_shutdown_fails_with_dispatch_error() {
    let (mut pool, ctxs) = ThreadPool::new(1).unwrap();
    pool.send_terminates();
    run_all(ctxs);
    pool.join_all();
    // Every worker has exited and dropped its handle on the channel, so a
    // submission is refused, promptly and without a crash.
    let r = pool.execute(|| {});
    assert!(matches!(r, Err(PoolError::DispatchError)));
}

#[test]
fn pool_of_four_completes_ten_jobs_and_stays_usable() {
    let (mut pool, ctxs) = ThreadPool::new(4).unwrap();
    let count = Arc::new(Mutex::new(0usize));
    for _ in 0..10 {
        let count = Arc::clone(&count);
        pool.execute(move || {
            *count.lock().unwrap() += 1;
        })
        .unwrap();
    }
    // Still usable after the ten: an eleventh submission is accepted.
    let count_more = Arc::clone(&count);
    assert!(pool.execute(move || {
        *count_more.lock().unwrap() += 1;
    })
    .is_ok());
    pool.send_terminates();
    run_all(ctxs);
    pool.join_all();
    assert_eq!(*count.lock().unwrap(), 11);
}

#[test]
fn shutdown_with_no_jobs_joins_every_worker() {
    let (mut pool, ctxs) = ThreadPool::new(4).unwrap();
    assert_eq!(pool.send_terminates(), 4);
    run_all(ctxs);
    let joined = pool.join_all();
    assert_eq!(joined, vec![0, 1, 2, 3]);
}

#[test]
fn jobs_queued_before_shutdown_still_run() {
    let (mut pool, ctxs) = ThreadPool::new(2).unwrap();
    let count = Arc::new(Mutex::new(0usize));
    for _ in 0..6 {
        let count = Arc::clone(&count);
        pool.execute(move || {
            *count.lock().unwrap() += 1;
        })
        .unwrap();
    }
    // Terminate markers queue behind the six jobs: the jobs stay eligible.
    pool.send_terminates();
    run_all(ctxs);
    pool.join_all();
    assert_eq!(*count.lock().unwrap(), 6);
}
