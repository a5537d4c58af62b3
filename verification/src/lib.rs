//! An in-process task-dispatch core.
//!
//! Callers hand a gateway structured requests; the gateway turns each into a
//! task and puts it on the scheduler's queue; a fixed pool of workers takes
//! the tasks from the queue, has an executor run them, and announces every
//! stage of a task's life on an event bus.
//!
//! * `task`, `timestamp`: tasks, their outcomes and events;
//! * `queue`, `bus`: the two channels of a scheduler;
//! * `worker`, `scheduler`: the pool and the way into it;
//! * `gateway`, `daemon`: requests in, acknowledgements out, and the whole
//!   put together;
//! * `executor`: what an executor hands back, and how it can fail;
//! * `lifecycle`: the rules by which events are published, and what holds
//!   of every stream of events published by them;
//! * `monitor`: a subscriber's tally of such a stream.
//!
//! Running an executor and waiting on the queue are left to the caller, who
//! gives each worker a thread and an executor of its choice.

pub mod timestamp;
pub mod task;
pub mod executor;
pub mod queue;
pub mod bus;
pub mod worker;
pub mod scheduler;
pub mod gateway;
pub mod daemon;
pub mod lifecycle;
pub mod monitor;
