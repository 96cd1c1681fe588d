//! A fixed, ordered set of managers that are started and stopped together,
//! and that each submitted item is routed among.
use vstd::prelude::*;

use crate::routing::{is_least_busy, least_busy_index};
use crate::worker_manager::WorkerManager;
use crate::worker_worker::WorkerWorker;

verus! {

/// The managers of a pool, in their fixed order; the list is never resized.
#[verifier::reject_recursive_types(W)]
pub struct ThreadPool<W, H> {
    managers: Vec<WorkerManager<W, H>>,
}

impl<W, H> View for ThreadPool<W, H> {
    type V = Seq<WorkerManager<W, H>>;

    closed spec fn view(&self) -> Seq<WorkerManager<W, H>> {
        self.managers@
    }
}

/// `m` is the manager that least busy routing picks from `managers` for the
/// pending counts `counts`.
pub open spec fn routed_to<W, H>(
    managers: Seq<WorkerManager<W, H>>,
    counts: Seq<usize>,
    m: WorkerManager<W, H>,
) -> bool {
    &&& counts.len() == managers.len()
    &&& exists|i: int| is_least_busy(counts, i) && managers[i] == m
}

impl<W, H> ThreadPool<W, H> {
    /// At least one manager, each of them well formed.
    pub open spec fn wf(&self) -> bool {
        &&& self@.len() >= 1
        &&& forall|i: int| 0 <= i < self@.len() ==> (#[trigger] self@[i]).wf()
    }

    /// Every worker of the pool has been started.
    pub open spec fn all_running(&self) -> bool {
        forall|i: int| 0 <= i < self@.len() ==> (#[trigger] self@[i]).running()
    }

    /// Every worker of the pool is parked.
    pub open spec fn all_idle(&self) -> bool {
        forall|i: int| 0 <= i < self@.len() ==> !(#[trigger] self@[i]).running()
    }

    /// Position by position, both pools feed the same queues.
    pub open spec fn same_queues(&self, other: &Self) -> bool {
        &&& self@.len() == other@.len()
        &&& forall|i: int| 0 <= i < self@.len() ==> (#[trigger] self@[i]).same_queue(&other@[i])
    }

    /// A pool of `num_threads` managers, each with its own empty queue, a
    /// pending count of zero and a parked worker.
    pub fn new(num_threads: u32) -> (r: Self)
        requires
            num_threads >= 1,
        ensures
            r.wf(),
            r@.len() == num_threads,
            r.all_idle(),
    {
        let mut managers: Vec<WorkerManager<W, H>> = Vec::new();
        let mut made: u32 = 0;
        while made < num_threads
            invariant
                made <= num_threads,
                managers@.len() == made,
                forall|i: int| 0 <= i < managers@.len() ==> (#[trigger] managers@[i]).wf()
                    && !managers@[i].running(),
            decreases num_threads - made,
        {
            managers.push(WorkerManager::new());
            made = made + 1;
        }
        ThreadPool { managers }
    }

    /// The number of managers, fixed when the pool was made.
    pub fn num_managers(&self) -> (r: usize)
        ensures
            r == self@.len(),
    {
        self.managers.len()
    }

    /// The manager at position `i` of the pool's order.
    pub fn manager(&self, i: usize) -> (r: &WorkerManager<W, H>)
        requires
            i < self@.len(),
        ensures
            *r == self@[i as int],
    {
        &self.managers[i]
    }

    /// A snapshot of every manager's pending count, in pool order.
    fn work_counts(&self) -> (r: Vec<usize>)
        ensures
            r@.len() == self@.len(),
    {
        let mut counts: Vec<usize> = Vec::new();
        let mut i: usize = 0;
        while i < self.managers.len()
            invariant
                i <= self.managers@.len(),
                counts@.len() == i,
            decreases self.managers@.len() - i,
        {
            counts.push(self.managers[i].work_count());
            i = i + 1;
        }
        counts
    }

    /// The manager with the smallest pending count in a snapshot of the
    /// counts, the first one on a tie. Other submitters may change the counts
    /// meanwhile, so the choice is a best-effort one.
    pub fn least_busy_manager(&self) -> (r: &WorkerManager<W, H>)
        requires
            self.wf(),
        ensures
            exists|counts: Seq<usize>| routed_to(self@, counts, *r),
    {
        let counts = self.work_counts();
        let i = least_busy_index(&counts);
        assert(routed_to(self@, counts@, self@[i as int]));
        &self.managers[i]
    }

    /// Routes the item to the least busy manager; it is queued at once,
    /// whether or not the pool runs.
    pub fn send_work(&self, work: W)
        requires
            self.wf(),
    {
        self.least_busy_manager().send_work(work);
    }

    /// Starts every worker of the pool through `spawn`.
    pub fn run<F>(&mut self, spawn: &F)
        where
            F: Fn(WorkerWorker<W>) -> H,
        requires
            old(self).wf(),
            old(self).all_idle(),
            forall|w: WorkerWorker<W>| spawn.requires((w,)),
        ensures
            final(self).wf(),
            final(self).all_running(),
            final(self).same_queues(old(self)),
    {
        let ghost start = self@;
        let mut i: usize = 0;
        while i < self.managers.len()
            invariant
                i <= self@.len(),
                self@.len() == start.len(),
                forall|w: WorkerWorker<W>| spawn.requires((w,)),
                forall|j: int| 0 <= j < self@.len() ==> (#[trigger] self@[j]).wf()
                    && self@[j].same_queue(&start[j]),
                forall|j: int| 0 <= j < i ==> (#[trigger] self@[j]).running(),
                forall|j: int| i <= j < self@.len() ==> !(#[trigger] self@[j]).running(),
            decreases self@.len() - i,
        {
            self.managers[i].run(spawn);
            i = i + 1;
        }
    }

    /// Stops every worker of the pool, reclaiming each through `join`, which
    /// waits for it to finish; afterwards the pool can be started again.
    pub fn shut_down<J>(&mut self, join: &J)
        where
            J: Fn(H) -> WorkerWorker<W>,
        requires
            old(self).wf(),
            old(self).all_running(),
            forall|h: H| join.requires((h,)),
        ensures
            final(self).wf(),
            final(self).all_idle(),
            final(self).same_queues(old(self)),
    {
        let ghost start = self@;
        let mut i: usize = 0;
        while i < self.managers.len()
            invariant
                i <= self@.len(),
                self@.len() == start.len(),
                forall|h: H| join.requires((h,)),
                forall|j: int| 0 <= j < self@.len() ==> (#[trigger] self@[j]).wf()
                    && self@[j].same_queue(&start[j]),
                forall|j: int| 0 <= j < i ==> !(#[trigger] self@[j]).running(),
                forall|j: int| i <= j < self@.len() ==> (#[trigger] self@[j]).running(),
            decreases self@.len() - i,
        {
            self.managers[i].shut_down(join);
            i = i + 1;
        }
    }
}

} // verus!
