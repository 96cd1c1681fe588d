//! The producing side of one queue, the pending count of its worker, and the
//! worker's lifecycle: parked, or started and reclaimable through a handle.
use std::sync::atomic::{AtomicUsize, Ordering};
use std::sync::Arc;
use vstd::prelude::*;

use crate::channel::{new_unbounded, send_message};
use crate::worker_worker::{WorkMessage, WorkerWorker};

verus! {

/// Owns one worker. While the worker is parked the manager holds it; while it
/// runs the manager holds the handle that gives it back, never both and never
/// neither.
#[verifier::reject_recursive_types(W)]
pub struct WorkerManager<W, H> {
    tx: crossbeam_channel::Sender<WorkMessage<W>>,
    worker: Option<WorkerWorker<W>>,
    join_handle: Option<H>,
    work_count: Arc<AtomicUsize>,
}

impl<W, H> WorkerManager<W, H> {
    /// Exactly one of the parked worker and the handle of the started one is held.
    pub closed spec fn wf(&self) -> bool {
        self.worker.is_some() != self.join_handle.is_some()
    }

    /// The worker has been started and not yet reclaimed.
    pub closed spec fn running(&self) -> bool {
        self.join_handle.is_some()
    }

    /// The parked worker, while not running.
    pub closed spec fn parked(&self) -> WorkerWorker<W> {
        self.worker.unwrap()
    }

    /// The handle of the started worker, while running.
    pub closed spec fn handle(&self) -> H {
        self.join_handle.unwrap()
    }

    /// The sending end of this manager's queue.
    pub closed spec fn sender(&self) -> crossbeam_channel::Sender<WorkMessage<W>> {
        self.tx
    }

    /// This manager's pending count.
    pub closed spec fn counter(&self) -> Arc<AtomicUsize> {
        self.work_count
    }

    /// Both managers feed the same queue and keep the same pending count.
    pub open spec fn same_queue(&self, other: &Self) -> bool {
        self.sender() == other.sender() && self.counter() == other.counter()
    }

    /// A manager with a new empty queue, a pending count of zero and a parked
    /// worker.
    pub fn new() -> (r: Self)
        ensures
            r.wf(),
            !r.running(),
            r.parked().counter() == r.counter(),
    {
        let (tx, rx) = new_unbounded::<WorkMessage<W>>();
        let work_count = Arc::new(AtomicUsize::new(0));
        let worker = WorkerWorker::new(rx, work_count.clone());
        WorkerManager { tx, worker: Some(worker), join_handle: None, work_count }
    }

    /// Whether the worker has been started and not yet reclaimed.
    pub fn is_running(&self) -> (r: bool)
        ensures
            r == self.running(),
    {
        self.join_handle.is_some()
    }

    /// Raises the pending count, then queues the item; the count is raised
    /// before the worker can see the item, so it never undercounts. Accepted
    /// whether or not the worker runs: items sent to a parked worker wait in
    /// the queue.
    pub fn send_work(&self, work: W) {
        self.work_count.fetch_add(1, Ordering::SeqCst);
        let _ = send_message(&self.tx, WorkMessage::Assignment(work));
    }

    /// Starts the parked worker through `spawn` and keeps the handle that it
    /// returns.
    pub fn run<F>(&mut self, spawn: &F)
        where
            F: Fn(WorkerWorker<W>) -> H,
        requires
            old(self).wf(),
            !old(self).running(),
            forall|w: WorkerWorker<W>| spawn.requires((w,)),
        ensures
            final(self).wf(),
            final(self).running(),
            final(self).same_queue(old(self)),
            spawn.ensures((old(self).parked(),), final(self).handle()),
    {
        let worker = self.worker.take().unwrap();
        let join_handle = spawn(worker);
        self.join_handle = Some(join_handle);
    }

    /// Asks the started worker to stop, then reclaims it through `join`, which
    /// waits for the worker to leave its loop; afterwards the worker is parked
    /// again and can be restarted.
    pub fn shut_down<J>(&mut self, join: &J)
        where
            J: Fn(H) -> WorkerWorker<W>,
        requires
            old(self).wf(),
            old(self).running(),
            forall|h: H| join.requires((h,)),
        ensures
            final(self).wf(),
            !final(self).running(),
            final(self).same_queue(old(self)),
            join.ensures((old(self).handle(),), final(self).parked()),
    {
        let _ = send_message(&self.tx, WorkMessage::ShutDown);
        let join_handle = self.join_handle.take().unwrap();
        let worker = join(join_handle);
        self.worker = Some(worker);
    }

    /// A snapshot of the number of items sent and not yet reported complete.
    pub fn work_count(&self) -> usize {
        self.work_count.load(Ordering::SeqCst)
    }
}

} // verus!
