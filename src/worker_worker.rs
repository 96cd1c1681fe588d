//! The consuming side of one queue: what a worker receives and what it does
//! with each message.
use std::sync::atomic::{AtomicUsize, Ordering};
use std::sync::Arc;
use vstd::prelude::*;

use crate::channel::receive_message;

verus! {

/// A message on a worker's queue: a work item to run, or the request to stop.
pub enum WorkMessage<W> {
    ShutDown,
    Assignment(W),
}

/// What a worker does after receiving one message.
pub enum WorkerStep<W> {
    /// Run this item, then report its completion.
    Perform(W),
    /// Leave the receive loop.
    Stop,
}

/// The work item that a message asks to run, if any.
pub open spec fn assignment_of<W>(msg: WorkMessage<W>) -> Option<W> {
    match msg {
        WorkMessage::ShutDown => None,
        WorkMessage::Assignment(w) => Some(w),
    }
}

/// Holds the receiving end of one queue and a share of its manager's pending
/// count, which it lowers once per completed item.
#[verifier::reject_recursive_types(W)]
pub struct WorkerWorker<W> {
    rx: crossbeam_channel::Receiver<WorkMessage<W>>,
    work_count: Arc<AtomicUsize>,
}

impl<W> WorkerWorker<W> {
    /// The queue that this worker consumes.
    pub closed spec fn receiver(&self) -> crossbeam_channel::Receiver<WorkMessage<W>> {
        self.rx
    }

    /// The pending count that this worker lowers.
    pub closed spec fn counter(&self) -> Arc<AtomicUsize> {
        self.work_count
    }

    pub fn new(rx: crossbeam_channel::Receiver<WorkMessage<W>>, work_count: Arc<AtomicUsize>) -> (r: WorkerWorker<W>)
        ensures
            r.receiver() == rx,
            r.counter() == work_count,
    {
        WorkerWorker { rx, work_count }
    }

    /// Waits for the next message on the queue; `None` means that no sender is
    /// left, which a manager that still exists never lets happen.
    pub fn recv_work_msg(&self) -> (r: Option<WorkMessage<W>>) {
        receive_message(&self.rx)
    }

    /// Decides what to do with a received message: an assignment is performed,
    /// the request to stop ends the loop.
    pub fn next_step(msg: WorkMessage<W>) -> (r: WorkerStep<W>)
        ensures
            (r is Stop) <==> (msg is ShutDown),
            assignment_of(msg) matches Some(w) ==> r == WorkerStep::Perform(w),
    {
        match msg {
            WorkMessage::ShutDown => WorkerStep::Stop,
            WorkMessage::Assignment(w) => WorkerStep::Perform(w),
        }
    }

    /// The completion callback: lowers the manager's pending count by one,
    /// once the item has run to its end.
    pub fn perform_work_done(&self) {
        self.work_count.fetch_sub(1, Ordering::SeqCst);
    }
}

} // verus!
