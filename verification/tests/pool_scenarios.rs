use workpool::pool::{Dispatch, PoolError, WorkerPool};

#[test]
fn pool_immediate_shutdown() {
    for size in 1..8usize {
        let mut pool: WorkerPool<u64> = WorkerPool::new(size).unwrap();
        assert_eq!(pool.num_workers(), size);
        assert_eq!(pool.num_live(), size);
        assert!(!pool.shutdown_started());
        let ran = pool.shutdown();
        assert!(ran.is_empty());
        assert!(pool.shutdown_started());
        assert_eq!(pool.num_live(), 0);
        assert_eq!(pool.pending_count(), 0);
    }
}

#[test]
fn pool_zero_size_rejected() {
    let r: Result<WorkerPool<u64>, PoolError> = WorkerPool::new(0);
    assert!(matches!(r, Err(PoolError::ZeroSize)));
}

#[test]
fn pool_runs_all_jobs_once() {
    let mut pool: WorkerPool<u64> = WorkerPool::new(3).unwrap();
    let n = 10u64;
    for j in 0..n {
        assert!(pool.execute(j).is_ok());
    }
    let ran = pool.shutdown();
    let mut counter = 0u64;
    let mut seen = vec![false; n as usize];
    for j in &ran {
        counter += 1;
        assert!(!seen[*j as usize], "job ran twice");
        seen[*j as usize] = true;
    }
    assert_eq!(counter, n);
    assert!(seen.iter().all(|s| *s));
}

#[test]
fn pool_submit_after_shutdown_fails() {
    let mut pool: WorkerPool<&'static str> = WorkerPool::new(2).unwrap();
    assert!(pool.execute("early").is_ok());
    pool.begin_shutdown();
    match pool.execute("late") {
        Err(job) => assert_eq!(job, "late"),
        Ok(()) => panic!("a job submitted after shutdown must fail visibly"),
    }
    let ran = pool.join();
    assert_eq!(ran, vec!["early"]);
}

#[test]
fn pool_hundred_jobs_four_workers() {
    let mut pool: WorkerPool<u64> = WorkerPool::new(4).unwrap();
    let mut collected: Vec<u64> = Vec::new();
    for j in 0..100u64 {
        assert!(pool.execute(j).is_ok());
        // let the workers make some progress while jobs keep arriving
        if j % 3 == 0 {
            let w = (j % 4) as usize;
            if let Dispatch::Ran(done) = pool.worker_step(w) {
                collected.push(done);
            }
        }
    }
    let ran = pool.shutdown();
    collected.extend(ran);
    collected.sort();
    let expected: Vec<u64> = (0..100).collect();
    assert_eq!(collected, expected);
}

#[test]
fn pool_single_worker_serializes() {
    let mut pool: WorkerPool<&'static str> = WorkerPool::new(1).unwrap();
    assert!(pool.execute("job a").is_ok());
    assert!(pool.execute("job b").is_ok());
    match pool.worker_step(0) {
        Dispatch::Ran(j) => assert_eq!(j, "job a"),
        _ => panic!("the first step of the only worker must run the first job"),
    }
    match pool.worker_step(0) {
        Dispatch::Ran(j) => assert_eq!(j, "job b"),
        _ => panic!("the second step of the only worker must run the second job"),
    }
    let ran = pool.shutdown();
    assert!(ran.is_empty());
}

#[test]
fn pool_stopped_worker_stays_idle() {
    let mut pool: WorkerPool<u64> = WorkerPool::new(2).unwrap();
    assert!(pool.execute(7).is_ok());
    pool.begin_shutdown();
    // pending: Work(7), Shutdown, Shutdown
    assert_eq!(pool.pending_count(), 3);
    assert!(matches!(pool.worker_step(0), Dispatch::Ran(7)));
    assert!(matches!(pool.worker_step(0), Dispatch::Stopped));
    assert_eq!(pool.num_live(), 1);
    // a stopped worker pulls nothing further
    assert!(matches!(pool.worker_step(0), Dispatch::Idle));
    assert!(matches!(pool.worker_step(1), Dispatch::Stopped));
    assert_eq!(pool.num_live(), 0);
    assert_eq!(pool.pending_count(), 0);
}

#[test]
fn pool_idle_on_empty_queue() {
    let mut pool: WorkerPool<u64> = WorkerPool::new(1).unwrap();
    assert!(matches!(pool.worker_step(0), Dispatch::Idle));
    let ran = pool.shutdown();
    assert!(ran.is_empty());
}
