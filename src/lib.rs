//! A fixed-size pool of workers, each fed by its own unbounded queue, with
//! admission-time routing of each work item to the least busy worker and a
//! start/stop lifecycle per worker.
//!
//! The library is generic over the work item type `W` and over the handle
//! type `H` that stands for a started worker; the caller supplies how a worker
//! is started and how a started worker is reclaimed.
use vstd::prelude::*;

pub mod channel;
pub mod routing;
pub mod thread_pool;
pub mod worker_manager;
pub mod worker_worker;

pub use routing::least_busy_index;
pub use thread_pool::ThreadPool;
pub use worker_manager::WorkerManager;
pub use worker_worker::{WorkMessage, WorkerStep, WorkerWorker};

verus! {

} // verus!
