//! The scheduler: the queue, the event bus, and the pool of workers between
//! them.

use crate::bus::{channel_capacity, channel_of_subscription, EventBus, EVENT_BUFFER_CAPACITY};
use crate::daemon::{clamp_worker_limit, granted_workers, MAX_WORKERS};
use crate::queue::{task_queue, TaskOutbox};
use crate::task::{Task, TaskEvent};
use crate::worker::IdleWorker;
use vstd::prelude::*;
use vstd::string::StringExecFns;

verus! {

/// What a scheduler is started with.
#[derive(Debug, Clone)]
pub struct SchedulerConfig {
    pub worker_limit: usize,
}

impl Default for SchedulerConfig {
    fn default() -> (config: SchedulerConfig)
        ensures
            config.worker_limit == MAX_WORKERS,
    {
        SchedulerConfig { worker_limit: MAX_WORKERS }
    }
}

/// Why the scheduler did not accept a task.
#[derive(Debug)]
pub enum SchedulerError {
    /// Every worker is gone, so nothing would take the task from the queue.
    QueueClosed,
}

impl SchedulerError {
    /// The text of this error.
    pub open spec fn text(&self) -> Seq<char> {
        "task queue is closed"@
    }

    /// The text of this error.
    #[allow(clippy::inherent_to_string)]
    pub fn to_string(&self) -> (text: String)
        ensures
            text@ == self.text(),
    {
        match self {
            SchedulerError::QueueClosed => String::from_str("task queue is closed"),
        }
    }
}

/// The way into a started scheduler, for any number of callers.
pub struct SchedulerHandle {
    tasks: TaskOutbox,
    events: EventBus,
}

impl Clone for SchedulerHandle {
    /// One more handle on the same scheduler.
    fn clone(&self) -> (copy: SchedulerHandle)
        ensures
            copy.queue() == self.queue(),
            copy.bus() == self.bus(),
    {
        SchedulerHandle { tasks: self.tasks.clone(), events: self.events.clone() }
    }
}

impl SchedulerHandle {
    /// The queue of the scheduler behind this handle. Handles and workers
    /// with the same queue and the same bus are those of one scheduler.
    pub closed spec fn queue(&self) -> int {
        self.tasks.queue()
    }

    /// The channel of the event bus of the scheduler behind this handle.
    pub closed spec fn bus(&self) -> int {
        self.events.channel()
    }

    /// The answer to an enqueue, given whether the queue took the task.
    pub fn answer(taken: bool) -> (answer: Result<(), SchedulerError>)
        ensures
            taken ==> answer is Ok,
            !taken ==> answer == Err::<(), SchedulerError>(SchedulerError::QueueClosed),
    {
        if taken {
            Ok(())
        } else {
            Err(SchedulerError::QueueClosed)
        }
    }

    /// Publishes `TaskEvent::queued` for `task`, then puts the task on the
    /// queue: the announcement is out before any worker can see the task.
    /// The call never waits for a free worker; it fails only where the queue
    /// is closed because every worker is gone.
    pub fn enqueue(&self, task: Task) -> (answer: Result<(), SchedulerError>)
        ensures
            answer matches Err(error) ==> error == SchedulerError::QueueClosed,
    {
        self.events.publish(TaskEvent::queued(&task));
        Self::answer(self.tasks.put(task))
    }

    /// A new subscription to the event bus of the scheduler behind this
    /// handle.
    pub fn subscribe_events(&self) -> (subscription: tokio::sync::broadcast::Receiver<TaskEvent>)
        ensures
            channel_of_subscription(subscription) == self.bus(),
    {
        self.events.subscribe()
    }
}

/// The pool of workers that takes tasks from the queue.
pub struct Scheduler;

impl Scheduler {
    /// Starts a scheduler: opens the queue and the event bus, and makes as
    /// many workers as the worker limit of `config` grants, all idle,
    /// numbered from 0 in order. The handle and every worker are on that one
    /// queue and that one bus, and the bus holds `EVENT_BUFFER_CAPACITY`
    /// events for each subscriber. The handle is the way in for callers;
    /// each worker is to be run on a thread of its own. Once every worker is
    /// gone the queue is closed.
    pub fn start(config: SchedulerConfig) -> (started: (SchedulerHandle, Vec<IdleWorker>))
        ensures
            started.1@.len() == granted_workers(config.worker_limit),
            forall|i: int| 0 <= i < started.1@.len() ==> (#[trigger] started.1@[i]).spec_id() == i,
            forall|i: int|
                0 <= i < started.1@.len() ==> (#[trigger] started.1@[i]).queue()
                    == started.0.queue() && started.1@[i].bus() == started.0.bus(),
            channel_capacity(started.0.bus()) == EVENT_BUFFER_CAPACITY,
    {
        let (tasks, inbox) = task_queue();
        let events = EventBus::new();
        let limit: usize = clamp_worker_limit(config.worker_limit);
        let mut workers: Vec<IdleWorker> = Vec::new();
        let mut next: usize = 0;
        while next < limit
            invariant
                next <= limit,
                workers@.len() == next,
                tasks.queue() == inbox.queue(),
                forall|i: int| 0 <= i < workers@.len() ==> (#[trigger] workers@[i]).spec_id() == i,
                forall|i: int|
                    0 <= i < workers@.len() ==> (#[trigger] workers@[i]).queue() == inbox.queue()
                        && workers@[i].bus() == events.channel(),
            decreases limit - next,
        {
            workers.push(IdleWorker::new(next, inbox.clone(), events.clone()));
            next += 1;
        }
        (SchedulerHandle { tasks, events }, workers)
    }
}

} // verus!
