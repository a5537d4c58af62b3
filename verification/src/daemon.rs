//! The configuration of the whole daemon and the bounds on its pool.

use crate::bus::{channel_capacity, EVENT_BUFFER_CAPACITY};
use crate::gateway::UnifiedGateway;
use crate::scheduler::{Scheduler, SchedulerConfig};
use crate::worker::IdleWorker;
use vstd::prelude::*;

verus! {

/// The most workers a pool runs.
pub const MAX_WORKERS: usize = 5;

/// The fewest workers a pool runs.
pub const MIN_WORKERS: usize = 1;

/// The pool size granted for a requested one: the nearest size between
/// `MIN_WORKERS` and `MAX_WORKERS`.
pub open spec fn granted_workers(requested: usize) -> usize {
    if requested < MIN_WORKERS {
        MIN_WORKERS
    } else if requested > MAX_WORKERS {
        MAX_WORKERS
    } else {
        requested
    }
}

/// The pool size granted for `requested`. A request out of bounds is not
/// refused: it is moved to the nearest bound.
pub fn clamp_worker_limit(requested: usize) -> (granted: usize)
    ensures
        granted == granted_workers(requested),
        MIN_WORKERS <= granted <= MAX_WORKERS,
{
    if requested < MIN_WORKERS {
        MIN_WORKERS
    } else if requested > MAX_WORKERS {
        MAX_WORKERS
    } else {
        requested
    }
}

/// What the daemon is started with.
#[derive(Debug, Clone)]
pub struct DaemonConfig {
    pub scheduler: SchedulerConfig,
}

impl Default for DaemonConfig {
    fn default() -> (config: DaemonConfig)
        ensures
            config.scheduler.worker_limit == MAX_WORKERS,
    {
        DaemonConfig { scheduler: SchedulerConfig::default() }
    }
}

impl DaemonConfig {
    /// The configuration the daemon starts its scheduler with: the one asked
    /// for, its worker limit moved within bounds.
    pub fn scheduler_config(&self) -> (granted: SchedulerConfig)
        ensures
            granted.worker_limit == granted_workers(self.scheduler.worker_limit),
    {
        SchedulerConfig { worker_limit: clamp_worker_limit(self.scheduler.worker_limit) }
    }
}

/// The daemon: one scheduler and the gateway in front of it.
pub struct Daemon {
    gateway: UnifiedGateway,
}

impl Daemon {
    /// The queue of the daemon's scheduler.
    pub closed spec fn queue(&self) -> int {
        self.gateway.scheduler().queue()
    }

    /// The channel of the event bus of the daemon's scheduler.
    pub closed spec fn bus(&self) -> int {
        self.gateway.scheduler().bus()
    }

    /// Starts the daemon: a scheduler with the worker limit of `config`
    /// moved within bounds, and a gateway in front of it. The workers are
    /// the scheduler's, on its queue and its bus, to be run each on a thread
    /// of its own.
    pub fn start(config: DaemonConfig) -> (started: (Daemon, Vec<IdleWorker>))
        ensures
            started.1@.len() == granted_workers(config.scheduler.worker_limit),
            forall|i: int| 0 <= i < started.1@.len() ==> (#[trigger] started.1@[i]).spec_id() == i,
            forall|i: int|
                0 <= i < started.1@.len() ==> (#[trigger] started.1@[i]).queue()
                    == started.0.queue() && started.1@[i].bus() == started.0.bus(),
            channel_capacity(started.0.bus()) == EVENT_BUFFER_CAPACITY,
    {
        let (scheduler, workers) = Scheduler::start(config.scheduler_config());
        (Daemon { gateway: UnifiedGateway::new(scheduler) }, workers)
    }

    /// The daemon's gateway, for one more caller: a gateway in front of the
    /// daemon's scheduler.
    pub fn gateway(&self) -> (gateway: UnifiedGateway)
        ensures
            gateway.scheduler().queue() == self.queue(),
            gateway.scheduler().bus() == self.bus(),
    {
        self.gateway.clone()
    }
}

} // verus!
