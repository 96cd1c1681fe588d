use my_first_server::{least_busy_index, ThreadPool, WorkMessage, WorkerManager, WorkerStep, WorkerWorker};
use std::sync::{Arc, Mutex};

type Job = Box<dyn Fn() + Send>;

// Workers are "started" by keeping them as their own handle and run when
// reclaimed: the receive loop then drains the queue on the calling thread,
// up to the stop request that `shut_down` has just queued.
type InlinePool = ThreadPool<Job, WorkerWorker<Job>>;
type InlineManager = WorkerManager<Job, WorkerWorker<Job>>;

fn keep(worker: WorkerWorker<Job>) -> WorkerWorker<Job> {
    worker
}

fn drain(worker: WorkerWorker<Job>) -> WorkerWorker<Job> {
    while let Some(msg) = worker.recv_work_msg() {
        match WorkerWorker::next_step(msg) {
            WorkerStep::Perform(work) => {
                work();
                worker.perform_work_done();
            }
            WorkerStep::Stop => break,
        }
    }
    worker
}

fn logging(log: &Arc<Mutex<Vec<usize>>>, value: usize) -> Job {
    let log = Arc::clone(log);
    Box::new(move || log.lock().unwrap().push(value))
}

fn total_pending(pool: &InlinePool) -> usize {
    (0..pool.num_managers()).map(|i| pool.manager(i).work_count()).sum()
}

#[test]
fn submit_before_run_queues_items() {
    for n in 1..4u32 {
        let pool: InlinePool = ThreadPool::new(n);
        let log = Arc::new(Mutex::new(vec![]));
        for k in 0..5 {
            pool.send_work(logging(&log, k));
        }
        assert_eq!(pool.num_managers(), n as usize);
        assert_eq!(total_pending(&pool), 5);
        assert!(log.lock().unwrap().is_empty());
    }
}

#[test]
fn single_worker_runs_items_in_submission_order() {
    let mut pool: InlinePool = ThreadPool::new(1);
    let log = Arc::new(Mutex::new(vec![]));
    pool.run(&keep);
    for k in 0..10 {
        pool.send_work(logging(&log, k));
    }
    pool.shut_down(&drain);
    assert_eq!(*log.lock().unwrap(), (0..10).collect::<Vec<usize>>());
    assert_eq!(total_pending(&pool), 0);
}

#[test]
fn least_busy_index_prefers_smaller_count() {
    assert_eq!(least_busy_index(&vec![0, 5]), 0);
    assert_eq!(least_busy_index(&vec![1, 5]), 0);
    assert_eq!(least_busy_index(&vec![5, 0]), 1);
    assert_eq!(least_busy_index(&vec![3, 3]), 0);
    assert_eq!(least_busy_index(&vec![4, 2, 2, 7]), 1);
    assert_eq!(least_busy_index(&vec![9]), 0);
    assert_eq!(least_busy_index(&vec![usize::MAX, usize::MAX, 0]), 2);
}

#[test]
fn least_busy_routing_follows_counts() {
    let pool: InlinePool = ThreadPool::new(2);
    let log = Arc::new(Mutex::new(vec![]));
    // Raise the second manager to five pending items.
    for k in 0..5 {
        pool.manager(1).send_work(logging(&log, k));
    }
    assert!(std::ptr::eq(pool.least_busy_manager(), pool.manager(0)));
    pool.send_work(logging(&log, 5));
    assert_eq!(pool.manager(0).work_count(), 1);
    assert_eq!(pool.manager(1).work_count(), 5);
    // Counts (1, 5): still the first.
    assert!(std::ptr::eq(pool.least_busy_manager(), pool.manager(0)));
    for k in 6..10 {
        pool.send_work(logging(&log, k));
    }
    // Counts (5, 5): the tie goes to the first.
    assert_eq!(pool.manager(0).work_count(), 5);
    assert!(std::ptr::eq(pool.least_busy_manager(), pool.manager(0)));
    pool.send_work(logging(&log, 10));
    // Counts (6, 5): the second is now strictly smaller.
    assert!(std::ptr::eq(pool.least_busy_manager(), pool.manager(1)));
}

#[test]
fn pending_count_tracks_sent_and_completed() {
    let mut manager: InlineManager = WorkerManager::new();
    let log = Arc::new(Mutex::new(vec![]));
    assert_eq!(manager.work_count(), 0);
    for k in 0..3 {
        manager.send_work(logging(&log, k));
        assert_eq!(manager.work_count(), k + 1);
    }
    manager.run(&keep);
    assert_eq!(manager.work_count(), 3);
    manager.shut_down(&drain);
    assert_eq!(manager.work_count(), 0);
    assert_eq!(log.lock().unwrap().len(), 3);
}

#[test]
fn restart_resumes_queued_items_in_order() {
    let mut manager: InlineManager = WorkerManager::new();
    let log = Arc::new(Mutex::new(vec![]));
    manager.run(&keep);
    manager.send_work(logging(&log, 0));
    manager.shut_down(&drain);
    assert_eq!(*log.lock().unwrap(), vec![0]);
    for k in 1..4 {
        manager.send_work(logging(&log, k));
    }
    assert_eq!(*log.lock().unwrap(), vec![0]);
    manager.run(&keep);
    manager.shut_down(&drain);
    assert_eq!(*log.lock().unwrap(), vec![0, 1, 2, 3]);
    assert_eq!(manager.work_count(), 0);
}

#[test]
fn lifecycle_alternates_between_parked_and_running() {
    let mut manager: InlineManager = WorkerManager::new();
    assert!(!manager.is_running());
    manager.run(&keep);
    assert!(manager.is_running());
    manager.shut_down(&drain);
    assert!(!manager.is_running());
    manager.run(&keep);
    assert!(manager.is_running());
    manager.shut_down(&drain);
    assert!(!manager.is_running());
}

#[test]
fn two_managers_keep_each_queue_in_order() {
    const A: usize = 0;
    const B: usize = 1;
    const C: usize = 2;
    const D: usize = 3;
    let mut pool: InlinePool = ThreadPool::new(2);
    let log = Arc::new(Mutex::new(vec![]));
    pool.run(&keep);
    for item in [A, B, C, D] {
        pool.send_work(logging(&log, item));
    }
    // A and C went to the first manager, B and D to the second.
    assert_eq!(pool.manager(0).work_count(), 2);
    assert_eq!(pool.manager(1).work_count(), 2);
    pool.shut_down(&drain);
    let log = log.lock().unwrap().clone();
    assert_eq!(log.len(), 4);
    let at = |x: usize| log.iter().position(|&y| y == x).unwrap();
    assert!(at(A) < at(C));
    assert!(at(B) < at(D));
    assert_eq!(total_pending(&pool), 0);
}

#[test]
fn next_step_performs_assignments_and_stops_on_shut_down() {
    let hit = Arc::new(Mutex::new(vec![]));
    let msg: WorkMessage<Job> = WorkMessage::Assignment(logging(&hit, 7));
    match WorkerWorker::next_step(msg) {
        WorkerStep::Perform(work) => work(),
        WorkerStep::Stop => panic!("an assignment must be performed"),
    }
    assert_eq!(*hit.lock().unwrap(), vec![7]);
    let stop: WorkMessage<Job> = WorkMessage::ShutDown;
    assert!(matches!(WorkerWorker::next_step(stop), WorkerStep::Stop));
}

#[test]
fn pool_restarts_and_drains_items_sent_while_stopped() {
    let mut pool: InlinePool = ThreadPool::new(2);
    let log = Arc::new(Mutex::new(vec![]));
    pool.run(&keep);
    pool.shut_down(&drain);
    for k in 0..6 {
        pool.send_work(logging(&log, k));
    }
    assert_eq!(total_pending(&pool), 6);
    pool.run(&keep);
    pool.shut_down(&drain);
    let mut got = log.lock().unwrap().clone();
    got.sort();
    assert_eq!(got, (0..6).collect::<Vec<usize>>());
    assert_eq!(total_pending(&pool), 0);
}
