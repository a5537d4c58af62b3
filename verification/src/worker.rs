//! The workers of a pool, and the two steps by which a worker takes a task
//! through its start and its finish.
//!
//! A worker is in one of two states, each a type of its own. An
//! [`IdleWorker`] holds no task; `begin` hands it one, publishes the
//! `Started` event, and yields a [`BusyWorker`]. A `BusyWorker` holds exactly
//! one task; `finish` takes the executor's outcome, publishes the `Finished`
//! event, and yields the worker idle again. Workers are made by
//! `Scheduler::start` alone, and nothing else publishes either event on a
//! scheduler's bus, so a worker never has two tasks in flight and never
//! finishes what it did not start.
//!
//! Whoever runs the pool gives each worker a thread of its own: it waits on
//! the worker's inbox, and for each task it receives calls `begin`, runs the
//! executor, and calls `finish`.

use crate::bus::EventBus;
use crate::executor::ExecutorError;
use crate::queue::TaskInbox;
use crate::task::{Task, TaskEvent, TaskExecution, TaskId};
use vstd::prelude::*;

verus! {

/// A worker that holds no task.
pub struct IdleWorker {
    id: usize,
    inbox: TaskInbox,
    events: EventBus,
}

/// A worker that holds one task: started, not yet finished.
pub struct BusyWorker {
    id: usize,
    task_id: TaskId,
    inbox: TaskInbox,
    events: EventBus,
}

impl IdleWorker {
    /// This worker's number in its pool.
    pub closed spec fn spec_id(&self) -> usize {
        self.id
    }

    /// The queue this worker takes its tasks from.
    pub closed spec fn queue(&self) -> int {
        self.inbox.queue()
    }

    /// The channel of the bus this worker publishes on.
    pub closed spec fn bus(&self) -> int {
        self.events.channel()
    }

    /// The worker numbered `id`, idle, that takes its tasks from `inbox` and
    /// publishes on `events`.
    pub(crate) fn new(id: usize, inbox: TaskInbox, events: EventBus) -> (worker: IdleWorker)
        ensures
            worker.spec_id() == id,
            worker.queue() == inbox.queue(),
            worker.bus() == events.channel(),
    {
        IdleWorker { id, inbox, events }
    }

    /// This worker's number in its pool.
    #[verifier::when_used_as_spec(spec_id)]
    pub fn id(&self) -> (id: usize)
        ensures
            id == self.spec_id(),
    {
        self.id
    }

    /// This worker's end of the queue it takes its tasks from.
    pub fn inbox(&self) -> (inbox: &TaskInbox)
        ensures
            inbox.queue() == self.queue(),
    {
        &self.inbox
    }

    /// Takes up `task`, received from the queue: publishes
    /// `TaskEvent::started` for it, whether or not anyone listens, and
    /// leaves the worker busy with it.
    pub fn begin(self, task: &Task) -> (busy: BusyWorker)
        ensures
            busy.spec_id() == self.spec_id(),
            busy.spec_task_id() == task.id,
            busy.queue() == self.queue(),
            busy.bus() == self.bus(),
    {
        self.events.publish(TaskEvent::started(task, self.id));
        BusyWorker { id: self.id, task_id: task.id, inbox: self.inbox, events: self.events }
    }
}

impl BusyWorker {
    /// This worker's number in its pool.
    pub closed spec fn spec_id(&self) -> usize {
        self.id
    }

    /// The task this worker holds.
    pub closed spec fn spec_task_id(&self) -> TaskId {
        self.task_id
    }

    /// The queue this worker takes its tasks from.
    pub closed spec fn queue(&self) -> int {
        self.inbox.queue()
    }

    /// The channel of the bus this worker publishes on.
    pub closed spec fn bus(&self) -> int {
        self.events.channel()
    }

    /// This worker's number in its pool.
    #[verifier::when_used_as_spec(spec_id)]
    pub fn id(&self) -> (id: usize)
        ensures
            id == self.spec_id(),
    {
        self.id
    }

    /// The task this worker holds.
    #[verifier::when_used_as_spec(spec_task_id)]
    pub fn task_id(&self) -> (id: TaskId)
        ensures
            id == self.spec_task_id(),
    {
        self.task_id
    }

    /// Lets the held task go with the executor's `outcome`: publishes
    /// `TaskEvent::finished` for it, success or failure alike, and leaves
    /// the worker idle. A failure of the executor goes into the event and
    /// nowhere else; it ends neither the worker nor anything around it. The
    /// flag says whether any subscriber was there to hear of the finish; the
    /// worker goes on either way.
    pub fn finish(self, outcome: Result<TaskExecution, ExecutorError>) -> (next: (
        IdleWorker,
        bool,
    ))
        ensures
            next.0.spec_id() == self.spec_id(),
            next.0.queue() == self.queue(),
            next.0.bus() == self.bus(),
    {
        let finished = TaskEvent::finished(self.task_id, self.id, outcome);
        let heard: bool = self.events.publish(finished).is_some();
        (IdleWorker { id: self.id, inbox: self.inbox, events: self.events }, heard)
    }
}

} // verus!
