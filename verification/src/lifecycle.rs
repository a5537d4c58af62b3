//! The rules by which events are published, and the laws of every stream of
//! events published by them.
//!
//! A log is the sequence of events published on a scheduler's bus so far,
//! oldest first. Three functions publish on that bus, and each gives a rule
//! for which event may come next:
//!
//! * `SchedulerHandle::enqueue` publishes `Queued` for the task it is given,
//!   before it puts the task on the queue. The rule: `Queued` comes for a
//!   task of which the log holds no event yet. It rests on every task
//!   having an identity of its own.
//! * `IdleWorker::begin` publishes `Started` for a task received from the
//!   queue. Only a worker that holds no task can call it, and the queue
//!   hands a task to one worker, after it was put there. The rule: `Started`
//!   comes from a worker of the pool that holds no task, for a task that
//!   was queued and has not been started.
//! * `BusyWorker::finish` publishes `Finished` for the task the worker
//!   holds. The rule: `Finished` comes from a worker for the task that it
//!   holds.
//!
//! A log built by these rules alone is admissible. The rules do not say
//! which of the waiting tasks a worker takes, nor how the steps of workers
//! and callers interleave, so what is proved here of every admissible log
//! holds of every schedule.

use crate::task::{TaskEvent, TaskExecution, TaskId, TaskRunError};
use vstd::prelude::*;

verus! {

/// The events of `log` that are about `task`, in the order of the log.
pub open spec fn history(log: Seq<TaskEvent>, task: TaskId) -> Seq<TaskEvent>
    decreases log.len(),
{
    if log.len() == 0 {
        Seq::empty()
    } else if log.last().subject() == task {
        history(log.drop_last(), task).push(log.last())
    } else {
        history(log.drop_last(), task)
    }
}

/// The tasks that are queued and not yet started after `log`.
pub open spec fn pending(log: Seq<TaskEvent>) -> Set<TaskId>
    decreases log.len(),
{
    if log.len() == 0 {
        Set::empty()
    } else {
        match log.last() {
            TaskEvent::Queued { task_id } => pending(log.drop_last()).insert(task_id),
            TaskEvent::Started { task_id, .. } => pending(log.drop_last()).remove(task_id),
            TaskEvent::Finished { .. } => pending(log.drop_last()),
        }
    }
}

/// The task that `worker` holds after `log`: the one it started last, unless
/// it has finished since.
pub open spec fn holding(log: Seq<TaskEvent>, worker: usize) -> Option<TaskId>
    decreases log.len(),
{
    if log.len() == 0 {
        None
    } else {
        match log.last() {
            TaskEvent::Queued { .. } => holding(log.drop_last(), worker),
            TaskEvent::Started { task_id, worker_id } => if worker_id == worker {
                Some(task_id)
            } else {
                holding(log.drop_last(), worker)
            },
            TaskEvent::Finished { worker_id, .. } => if worker_id == worker {
                None
            } else {
                holding(log.drop_last(), worker)
            },
        }
    }
}

/// Whether `event` may be published next, after `log`, in a pool of `limit`
/// workers.
pub open spec fn permitted(log: Seq<TaskEvent>, limit: usize, event: TaskEvent) -> bool {
    match event {
        TaskEvent::Queued { task_id } => history(log, task_id).len() == 0,
        TaskEvent::Started { task_id, worker_id } => {
            &&& worker_id < limit
            &&& holding(log, worker_id) is None
            &&& pending(log).contains(task_id)
        },
        TaskEvent::Finished { task_id, worker_id, .. } => {
            &&& worker_id < limit
            &&& holding(log, worker_id) == Some(task_id)
        },
    }
}

/// Whether every event of `log` was permitted when it was published, in a
/// pool of `limit` workers.
pub open spec fn admissible(log: Seq<TaskEvent>, limit: usize) -> bool
    decreases log.len(),
{
    log.len() == 0 || (admissible(log.drop_last(), limit) && permitted(
        log.drop_last(),
        limit,
        log.last(),
    ))
}

/// How many `Queued` events `log` holds.
pub open spec fn count_queued(log: Seq<TaskEvent>) -> nat
    decreases log.len(),
{
    if log.len() == 0 {
        0
    } else {
        count_queued(log.drop_last()) + if log.last() is Queued {
            1nat
        } else {
            0nat
        }
    }
}

/// How many `Started` events `log` holds.
pub open spec fn count_started(log: Seq<TaskEvent>) -> nat
    decreases log.len(),
{
    if log.len() == 0 {
        0
    } else {
        count_started(log.drop_last()) + if log.last() is Started {
            1nat
        } else {
            0nat
        }
    }
}

/// How many `Finished` events `log` holds.
pub open spec fn count_finished(log: Seq<TaskEvent>) -> nat
    decreases log.len(),
{
    if log.len() == 0 {
        0
    } else {
        count_finished(log.drop_last()) + if log.last() is Finished {
            1nat
        } else {
            0nat
        }
    }
}

/// The tasks in flight after `log`: started, not yet finished.
pub open spec fn in_flight(log: Seq<TaskEvent>) -> int {
    count_started(log) - count_finished(log)
}

/// The tasks waiting after `log`: queued, not yet started.
pub open spec fn backlog(log: Seq<TaskEvent>) -> int {
    count_queued(log) - count_started(log)
}

/// The worker steps still owed after `log`: a start and a finish for each
/// waiting task, a finish for each task in flight.
pub open spec fn steps_owed(log: Seq<TaskEvent>) -> int {
    2 * backlog(log) + in_flight(log)
}

/// How many of the workers numbered below `limit` hold a task after `log`.
pub open spec fn busy_workers(log: Seq<TaskEvent>, limit: usize) -> nat
    decreases limit,
{
    if limit == 0 {
        0
    } else {
        busy_workers(log, (limit - 1) as usize) + if holding(log, (limit - 1) as usize) is Some {
            1nat
        } else {
            0nat
        }
    }
}

proof fn lemma_busy_bounded(log: Seq<TaskEvent>, limit: usize)
    ensures
        busy_workers(log, limit) <= limit,
    decreases limit,
{
    if limit > 0 {
        lemma_busy_bounded(log, (limit - 1) as usize);
    }
}

proof fn lemma_no_worker_busy_at_first(limit: usize)
    ensures
        busy_workers(Seq::<TaskEvent>::empty(), limit) == 0,
    decreases limit,
{
    if limit > 0 {
        lemma_no_worker_busy_at_first((limit - 1) as usize);
    }
}

/// What one more event does to the number of busy workers.
proof fn lemma_busy_after(log: Seq<TaskEvent>, event: TaskEvent, limit: usize)
    ensures
        match event {
            TaskEvent::Queued { .. } => busy_workers(log.push(event), limit) == busy_workers(
                log,
                limit,
            ),
            TaskEvent::Started { worker_id, .. } => holding(log, worker_id) is None
                ==> busy_workers(log.push(event), limit) == busy_workers(log, limit) + if worker_id
                < limit {
                1nat
            } else {
                0nat
            },
            TaskEvent::Finished { worker_id, .. } => holding(log, worker_id) is Some
                ==> busy_workers(log.push(event), limit) + if worker_id < limit {
                1nat
            } else {
                0nat
            } == busy_workers(log, limit),
        },
    decreases limit,
{
    assert(log.push(event).drop_last() =~= log);
    if limit > 0 {
        lemma_busy_after(log, event, (limit - 1) as usize);
    }
}

/// Under the rules, the tasks in flight are as many as the busy workers.
proof fn lemma_in_flight_is_busy(log: Seq<TaskEvent>, limit: usize)
    requires
        admissible(log, limit),
    ensures
        in_flight(log) == busy_workers(log, limit),
    decreases log.len(),
{
    if log.len() > 0 {
        let before = log.drop_last();
        assert(before.push(log.last()) =~= log);
        lemma_in_flight_is_busy(before, limit);
        lemma_busy_after(before, log.last(), limit);
    } else {
        assert(log =~= Seq::<TaskEvent>::empty());
        lemma_no_worker_busy_at_first(limit);
    }
}

/// Every beginning of an admissible log is admissible.
pub proof fn lemma_admissible_prefix(log: Seq<TaskEvent>, limit: usize, k: int)
    requires
        admissible(log, limit),
        0 <= k <= log.len(),
    ensures
        admissible(log.take(k), limit),
    decreases log.len(),
{
    if k < log.len() {
        lemma_admissible_prefix(log.drop_last(), limit, k);
        assert(log.drop_last().take(k) =~= log.take(k));
    } else {
        assert(log.take(k) =~= log);
    }
}

/// At every point of an admissible log, the tasks in flight are no more
/// than the workers of the pool: after each of its events, the `Started`
/// events so far exceed the `Finished` ones by at most `limit`, and never
/// fall short of them.
pub proof fn law_in_flight_within_limit(log: Seq<TaskEvent>, limit: usize, k: int)
    requires
        admissible(log, limit),
        0 <= k <= log.len(),
    ensures
        0 <= in_flight(log.take(k)) <= limit,
{
    lemma_admissible_prefix(log, limit, k);
    lemma_in_flight_is_busy(log.take(k), limit);
    lemma_busy_bounded(log.take(k), limit);
}

/// Whether `own`, the events about `task`, are the beginning of one life in
/// order: `Queued` first, then `Started`, then `Finished` by the worker that
/// started it, and nothing after.
pub open spec fn in_order(own: Seq<TaskEvent>, task: TaskId) -> bool {
    &&& own.len() <= 3
    &&& own.len() >= 1 ==> own[0] == (TaskEvent::Queued { task_id: task })
    &&& own.len() >= 2 ==> own[1] is Started && own[1].subject() == task
    &&& own.len() == 3 ==> own[2] is Finished && own[2].subject() == task && own[2].worker()
        == own[1].worker()
}

/// What the rules keep true of a log: a waiting task has been queued and no
/// more, a held task has been queued and started by its holder and no more,
/// and the events of every task are in order.
spec fn consistent(log: Seq<TaskEvent>) -> bool {
    &&& forall|task: TaskId| #[trigger]
        pending(log).contains(task) ==> history(log, task) == seq![
            TaskEvent::Queued { task_id: task },
        ]
    &&& forall|worker: usize|
        (#[trigger] holding(log, worker)) is Some ==> history(log, holding(log, worker)->0)
            == seq![
            TaskEvent::Queued { task_id: holding(log, worker)->0 },
            TaskEvent::Started { task_id: holding(log, worker)->0, worker_id: worker },
        ]
    &&& forall|task: TaskId| in_order(#[trigger] history(log, task), task)
}

proof fn lemma_consistent(log: Seq<TaskEvent>, limit: usize)
    requires
        admissible(log, limit),
    ensures
        consistent(log),
    decreases log.len(),
{
    if log.len() > 0 {
        let before = log.drop_last();
        let event = log.last();
        lemma_consistent(before, limit);
        let subject = event.subject();
        assert forall|task: TaskId| #[trigger] pending(log).contains(task) implies history(
            log,
            task,
        ) == seq![TaskEvent::Queued { task_id: task }] by {
            if task == subject {
                match event {
                    TaskEvent::Queued { .. } => {
                        assert(history(log, task) =~= seq![TaskEvent::Queued { task_id: task }]);
                    },
                    TaskEvent::Started { .. } => {},
                    TaskEvent::Finished { worker_id, .. } => {
                        assert(holding(before, worker_id) == Some(task));
                        assert(pending(before).contains(task));
                    },
                }
            } else {
                assert(pending(before).contains(task));
            }
        }
        assert forall|worker: usize| (#[trigger] holding(log, worker)) is Some implies history(
            log,
            holding(log, worker)->0,
        ) == seq![
            TaskEvent::Queued { task_id: holding(log, worker)->0 },
            TaskEvent::Started { task_id: holding(log, worker)->0, worker_id: worker },
        ] by {
            let task = holding(log, worker)->0;
            match event {
                TaskEvent::Queued { .. } => {
                    assert(holding(before, worker) == Some(task));
                },
                TaskEvent::Started { task_id, worker_id } => {
                    assert(pending(before).contains(task_id));
                    if worker_id == worker {
                        assert(history(log, task) =~= seq![
                            TaskEvent::Queued { task_id: task },
                            TaskEvent::Started { task_id: task, worker_id: worker },
                        ]);
                    } else {
                        assert(holding(before, worker) == Some(task));
                    }
                },
                TaskEvent::Finished { task_id, worker_id, .. } => {
                    assert(holding(before, worker_id) == Some(task_id));
                    assert(holding(before, worker) == Some(task));
                    if task == task_id {
                        assert(history(before, task)[1] == (TaskEvent::Started {
                            task_id: task,
                            worker_id: worker,
                        }));
                        assert(history(before, task)[1] == (TaskEvent::Started {
                            task_id: task,
                            worker_id,
                        }));
                    }
                },
            }
        }
        assert forall|task: TaskId| in_order(#[trigger] history(log, task), task) by {
            assert(in_order(history(before, task), task));
            if task == subject {
                match event {
                    TaskEvent::Queued { .. } => {},
                    TaskEvent::Started { .. } => {
                        assert(pending(before).contains(task));
                    },
                    TaskEvent::Finished { worker_id, .. } => {
                        assert(holding(before, worker_id) == Some(task));
                    },
                }
            }
        }
    }
}

/// In an admissible log the events of each task are in order: `Queued`,
/// then `Started`, then `Finished` by the worker that started it. None of
/// the three comes twice, and none comes before the one it follows.
pub proof fn law_lifecycle_in_order(log: Seq<TaskEvent>, limit: usize, task: TaskId)
    requires
        admissible(log, limit),
    ensures
        in_order(history(log, task), task),
{
    lemma_consistent(log, limit);
}

/// Each of a task's own events stands somewhere in the log.
proof fn lemma_history_occurs(log: Seq<TaskEvent>, task: TaskId, k: int) -> (at: int)
    requires
        0 <= k < history(log, task).len(),
    ensures
        0 <= at < log.len(),
        log[at] == history(log, task)[k],
    decreases log.len(),
{
    if log.last().subject() == task && k == history(log, task).len() - 1 {
        log.len() - 1
    } else {
        lemma_history_occurs(log.drop_last(), task, k)
    }
}

/// In an admissible log each stage of a task's life follows the one before
/// it: where a `Started` event stands, the `Queued` event of its task stands
/// earlier, and where a `Finished` event stands, the `Started` event of its
/// task, by the same worker, stands earlier.
pub proof fn law_stage_follows_stage(log: Seq<TaskEvent>, limit: usize, at: int) -> (earlier: int)
    requires
        admissible(log, limit),
        0 <= at < log.len(),
        !(log[at] is Queued),
    ensures
        0 <= earlier < at,
        log[at] matches TaskEvent::Started { task_id, .. } ==> log[earlier] == (TaskEvent::Queued {
            task_id,
        }),
        log[at] matches TaskEvent::Finished { task_id, worker_id, .. } ==> log[earlier] == (
        TaskEvent::Started { task_id, worker_id }),
{
    let before = log.take(at);
    lemma_admissible_prefix(log, limit, at + 1);
    assert(log.take(at + 1).drop_last() =~= before);
    lemma_consistent(before, limit);
    let task = log[at].subject();
    match log[at] {
        TaskEvent::Queued { .. } => 0,
        TaskEvent::Started { .. } => {
            assert(pending(before).contains(task));
            lemma_history_occurs(before, task, 0)
        },
        TaskEvent::Finished { worker_id, .. } => {
            assert(holding(before, worker_id) == Some(task));
            lemma_history_occurs(before, task, 1)
        },
    }
}

/// Under the rules, the waiting tasks are as many as `Queued` events exceed
/// `Started` ones.
proof fn lemma_backlog_is_pending(log: Seq<TaskEvent>, limit: usize)
    requires
        admissible(log, limit),
    ensures
        pending(log).finite(),
        backlog(log) == pending(log).len(),
    decreases log.len(),
{
    if log.len() > 0 {
        let before = log.drop_last();
        lemma_backlog_is_pending(before, limit);
        lemma_consistent(before, limit);
        match log.last() {
            TaskEvent::Queued { task_id } => {
                assert(!pending(before).contains(task_id));
            },
            TaskEvent::Started { task_id, .. } => {
                assert(pending(before).contains(task_id));
            },
            TaskEvent::Finished { .. } => {},
        }
    }
}

/// Some worker numbered below `limit` holds a task, where any is busy.
proof fn lemma_busy_worker(log: Seq<TaskEvent>, limit: usize) -> (worker: usize)
    requires
        busy_workers(log, limit) > 0,
    ensures
        worker < limit,
        holding(log, worker) is Some,
    decreases limit,
{
    if holding(log, (limit - 1) as usize) is Some {
        (limit - 1) as usize
    } else {
        lemma_busy_worker(log, (limit - 1) as usize)
    }
}

/// Every worker numbered below `limit` is idle, where none is busy.
proof fn lemma_idle_worker(log: Seq<TaskEvent>, limit: usize, worker: usize)
    requires
        busy_workers(log, limit) == 0,
        worker < limit,
    ensures
        holding(log, worker) is None,
    decreases limit,
{
    if worker < limit - 1 {
        lemma_idle_worker(log, (limit - 1) as usize, worker);
    }
}

/// An admissible log never holds more `Started` events than `Queued` ones,
/// nor more `Finished` events than `Started` ones: of the tasks submitted,
/// none is started or finished that was not submitted, and none twice.
pub proof fn law_events_within_submissions(log: Seq<TaskEvent>, limit: usize)
    requires
        admissible(log, limit),
    ensures
        count_finished(log) <= count_started(log) <= count_queued(log),
{
    lemma_backlog_is_pending(log, limit);
    lemma_in_flight_is_busy(log, limit);
}

/// While a pool of at least one worker still owes a step, a worker can take
/// one: the event handed back is a `Started` or a `Finished`, and it is
/// permitted next. A task in flight can be finished with any `result`;
/// where none is in flight, the first worker can start a waiting task.
pub proof fn law_worker_can_step(
    log: Seq<TaskEvent>,
    limit: usize,
    result: Result<TaskExecution, TaskRunError>,
) -> (event: TaskEvent)
    requires
        admissible(log, limit),
        limit >= 1,
        steps_owed(log) > 0,
    ensures
        !(event is Queued),
        permitted(log, limit, event),
{
    lemma_backlog_is_pending(log, limit);
    lemma_in_flight_is_busy(log, limit);
    if in_flight(log) > 0 {
        let worker = lemma_busy_worker(log, limit);
        TaskEvent::Finished { task_id: holding(log, worker)->0, worker_id: worker, result }
    } else {
        lemma_idle_worker(log, limit, 0);
        TaskEvent::Started { task_id: pending(log).choose(), worker_id: 0 }
    }
}

/// Whether `events` holds worker steps only: no `Queued` event.
pub open spec fn worker_steps_only(events: Seq<TaskEvent>) -> bool {
    forall|i: int| 0 <= i < events.len() ==> !(#[trigger] events[i] is Queued)
}

/// Each worker step pays one of the steps owed, and leaves the submissions
/// as they were.
proof fn lemma_steps_paid(log: Seq<TaskEvent>, steps: Seq<TaskEvent>)
    requires
        worker_steps_only(steps),
    ensures
        steps_owed(log + steps) == steps_owed(log) - steps.len(),
        count_queued(log + steps) == count_queued(log),
    decreases steps.len(),
{
    if steps.len() > 0 {
        lemma_steps_paid(log, steps.drop_last());
        assert((log + steps).drop_last() =~= log + steps.drop_last());
        assert((log + steps).last() == steps.last());
        assert(!(steps[steps.len() - 1] is Queued));
    } else {
        assert(log + steps =~= log);
    }
}

/// With no further submissions, the workers come to rest. Whatever steps
/// they take after an admissible `log`, in whatever order, they take no more
/// than are owed; and once they have taken that many, every task submitted
/// has been started once and finished once: the log then holds as many
/// `Started` events, and as many `Finished` ones, as `Queued` ones.
pub proof fn law_workers_come_to_rest(log: Seq<TaskEvent>, steps: Seq<TaskEvent>, limit: usize)
    requires
        admissible(log + steps, limit),
        worker_steps_only(steps),
    ensures
        steps.len() <= steps_owed(log),
        count_queued(log + steps) == count_queued(log),
        steps.len() == steps_owed(log) ==> count_started(log + steps) == count_queued(log)
            && count_finished(log + steps) == count_queued(log),
{
    lemma_steps_paid(log, steps);
    law_events_within_submissions(log + steps, limit);
}

/// Tasks are followed apart from one another. An event about one task
/// leaves every other task where it was: with the same events of its own,
/// waiting if it was waiting, and held by the worker that held it.
pub proof fn law_tasks_followed_apart(
    log: Seq<TaskEvent>,
    limit: usize,
    event: TaskEvent,
    other: TaskId,
)
    requires
        admissible(log, limit),
        permitted(log, limit, event),
        event.subject() != other,
    ensures
        history(log.push(event), other) == history(log, other),
        pending(log.push(event)).contains(other) == pending(log).contains(other),
        forall|worker: usize|
            holding(log, worker) == Some(other) ==> #[trigger] holding(log.push(event), worker)
                == Some(other),
        forall|worker: usize|
            #[trigger] holding(log.push(event), worker) == Some(other) ==> holding(log, worker)
                == Some(other),
{
    assert(log.push(event).drop_last() =~= log);
}

} // verus!
