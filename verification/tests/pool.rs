use study_rust::pool::worker_step;
use study_rust::pool::Claim;
use study_rust::pool::PoolError;
use study_rust::pool::WorkerAction;
use study_rust::pool::WorkerEvent;
use study_rust::pool::WorkerPool;
use study_rust::pool::WorkerState;

#[test]
fn zero_size_pool_is_rejected() {
    let r: Result<WorkerPool<u64>, PoolError> = WorkerPool::new(0);
    assert!(matches!(r, Err(PoolError::InvalidPoolSize)));
}

#[test]
fn submit_after_close_fails_with_pool_closed() {
    let mut pool: WorkerPool<u64> = WorkerPool::new(1).unwrap();
    assert_eq!(pool.submit(1), Ok(()));
    pool.close();
    assert_eq!(pool.submit(2), Err(PoolError::PoolClosed));
    // the pending count did not grow: only the first task is drained
    assert_eq!(pool.drain(), vec![1]);
}

#[test]
fn tasks_are_claimed_in_submission_order() {
    let mut pool: WorkerPool<u64> = WorkerPool::new(3).unwrap();
    for id in [10u64, 20, 30, 40] {
        assert_eq!(pool.submit(id), Ok(()));
    }
    let mut claimed: Vec<u64> = Vec::new();
    loop {
        match pool.claim() {
            Claim::Task(t) => claimed.push(t),
            Claim::Empty => break,
            Claim::Closed => unreachable!(),
        }
    }
    assert_eq!(claimed, vec![10, 20, 30, 40]);
}

#[test]
fn claim_reports_empty_then_closed() {
    let mut pool: WorkerPool<u64> = WorkerPool::new(1).unwrap();
    assert_eq!(pool.claim(), Claim::Empty);
    pool.close();
    assert_eq!(pool.claim(), Claim::Closed);
}

#[test]
fn shutdown_returns_all_pending_tasks() {
    let mut pool: WorkerPool<u64> = WorkerPool::new(2).unwrap();
    for id in 0..7u64 {
        assert_eq!(pool.submit(id), Ok(()));
    }
    let rest = pool.shutdown();
    assert_eq!(rest, vec![0, 1, 2, 3, 4, 5, 6]);
    assert_eq!(pool.claim(), Claim::Closed);
}

#[test]
fn pool_of_two_runs_five_counting_tasks() {
    // Pool of size 2, five no-op counting tasks, then shutdown: the
    // shared counter ends at exactly 5, two workers were running at
    // the peak, and shutdown finds nothing left behind.
    let mut pool: WorkerPool<u64> = WorkerPool::new(2).unwrap();
    for id in 0..5u64 {
        assert_eq!(pool.submit(id), Ok(()));
    }
    let mut counter = 0u64;
    let mut w0 = WorkerState::Idle;
    let mut w1 = WorkerState::Idle;
    let mut peak_active = 0usize;
    loop {
        // worker 0 asks for work
        let c0 = pool.claim();
        let e0 = match c0 {
            Claim::Task(_) => WorkerEvent::TaskClaimed,
            Claim::Empty => break,
            Claim::Closed => break,
        };
        let (s0, a0) = worker_step(w0, e0);
        w0 = s0;
        assert_eq!(a0, WorkerAction::RunTask);
        // worker 1 asks for work before worker 0 finishes
        let c1 = pool.claim();
        if let Claim::Task(_) = c1 {
            let (s1, a1) = worker_step(w1, WorkerEvent::TaskClaimed);
            w1 = s1;
            assert_eq!(a1, WorkerAction::RunTask);
        }
        let active = (w0 == WorkerState::Running) as usize
            + (w1 == WorkerState::Running) as usize;
        if active > peak_active {
            peak_active = active;
        }
        // both tasks run to completion: each counts once
        if w0 == WorkerState::Running {
            counter += 1;
            let (s0, _) = worker_step(w0, WorkerEvent::TaskFinished { faulted: false });
            w0 = s0;
        }
        if w1 == WorkerState::Running {
            counter += 1;
            let (s1, _) = worker_step(w1, WorkerEvent::TaskFinished { faulted: false });
            w1 = s1;
        }
    }
    let rest = pool.shutdown();
    assert_eq!(rest.len(), 0);
    assert_eq!(counter, 5);
    assert_eq!(peak_active, 2);
    // with the queue closed and empty, both workers terminate
    let (s0, a0) = worker_step(w0, WorkerEvent::QueueClosedEmpty);
    let (s1, a1) = worker_step(w1, WorkerEvent::QueueClosedEmpty);
    assert_eq!((s0, a0), (WorkerState::Terminated, WorkerAction::Exit));
    assert_eq!((s1, a1), (WorkerState::Terminated, WorkerAction::Exit));
}

#[test]
fn faulting_task_leaves_worker_ready_for_more() {
    // A task that faults is reported, the worker goes back to Idle,
    // and later tasks still run on the same worker.
    let mut pool: WorkerPool<&'static str> = WorkerPool::new(1).unwrap();
    assert_eq!(pool.submit("boom"), Ok(()));
    assert_eq!(pool.submit("later"), Ok(()));
    let mut w = WorkerState::Idle;

    assert!(matches!(pool.claim(), Claim::Task("boom")));
    let (s, a) = worker_step(w, WorkerEvent::TaskClaimed);
    w = s;
    assert_eq!(a, WorkerAction::RunTask);
    // the task faults: the fault is surfaced, the worker survives
    let (s, a) = worker_step(w, WorkerEvent::TaskFinished { faulted: true });
    w = s;
    assert_eq!(a, WorkerAction::ReportFault);
    assert_eq!(w, WorkerState::Idle);

    // the next task is claimed and runs on the very same worker
    assert!(matches!(pool.claim(), Claim::Task("later")));
    let (s, a) = worker_step(w, WorkerEvent::TaskClaimed);
    w = s;
    assert_eq!(a, WorkerAction::RunTask);
    assert_eq!(w, WorkerState::Running);
    let (s, a) = worker_step(w, WorkerEvent::TaskFinished { faulted: false });
    w = s;
    assert_eq!(a, WorkerAction::Wait);
    assert_eq!(w, WorkerState::Idle);
}

#[test]
fn idle_worker_waits_on_an_open_empty_queue() {
    let (s, a) = worker_step(WorkerState::Idle, WorkerEvent::QueueEmpty);
    assert_eq!(s, WorkerState::Idle);
    assert_eq!(a, WorkerAction::Wait);
}
