use std::collections::HashMap;
use yinmo_bot::executor::process::ProcessExecutor;
use yinmo_bot::executor::ExecutorError;
use tokio::sync::broadcast::error::TryRecvError;
use yinmo_bot::bus::{EventBus, EVENT_BUFFER_CAPACITY};
use yinmo_bot::scheduler::{Scheduler, SchedulerConfig, SchedulerError, SchedulerHandle};
use yinmo_bot::worker::IdleWorker;
use yinmo_bot::task::{Task, TaskEvent, TaskExecution, TaskId, TaskRunError, TaskSpec};
use yinmo_bot::timestamp::Timestamp;

fn at(secs: i64, nanos: u32) -> Timestamp {
    Timestamp::from_parts(secs, nanos).expect("instant in range")
}

fn task(id: u128, command: &str) -> Task {
    Task::with_identity(
        TaskId(id),
        at(0, 0),
        TaskSpec {
            requester: "tester".to_string(),
            command: command.to_string(),
            args: Vec::new(),
            cwd: None,
            env: HashMap::new(),
        },
    )
}

fn exit(code: i32) -> Result<TaskExecution, ExecutorError> {
    Ok(ProcessExecutor::completed(Some(code), &b"out".to_vec(), &b"".to_vec(), at(1, 0), at(2, 0)))
}

#[test]
fn pool_has_as_many_workers_as_asked_within_bounds() {
    for asked in 1..=5usize {
        let (_, workers) = Scheduler::start(SchedulerConfig { worker_limit: asked });
        assert_eq!(workers.len(), asked);
    }
}

#[test]
fn pool_of_zero_workers_gets_one() {
    assert_eq!(Scheduler::start(SchedulerConfig { worker_limit: 0 }).1.len(), 1);
}

#[test]
fn pool_of_a_thousand_workers_gets_five() {
    assert_eq!(Scheduler::start(SchedulerConfig { worker_limit: 1000 }).1.len(), 5);
    assert_eq!(Scheduler::start(SchedulerConfig { worker_limit: usize::MAX }).1.len(), 5);
}

#[test]
fn default_pool_has_five_workers() {
    assert_eq!(SchedulerConfig::default().worker_limit, 5);
    assert_eq!(Scheduler::start(SchedulerConfig::default()).1.len(), 5);
}

#[test]
fn workers_are_numbered_from_zero() {
    let (_, workers) = Scheduler::start(SchedulerConfig { worker_limit: 5 });
    let ids: Vec<usize> = workers.iter().map(|worker| worker.id()).collect();
    assert_eq!(ids, vec![0, 1, 2, 3, 4]);
}

#[test]
fn event_buffer_holds_256_events() {
    assert_eq!(EVENT_BUFFER_CAPACITY, 256);
}

#[test]
fn closed_queue_error_text() {
    assert_eq!(SchedulerError::QueueClosed.to_string(), "task queue is closed");
}

#[test]
fn started_event_names_task_and_worker() {
    let event = TaskEvent::started(&task(77, "echo"), 2);
    assert!(matches!(
        event,
        TaskEvent::Started { task_id, worker_id } if task_id == TaskId(77) && worker_id == 2
    ));
}

#[test]
fn finished_event_reports_a_success() {
    match TaskEvent::finished(TaskId(5), 0, exit(0)) {
        TaskEvent::Finished { task_id, worker_id, result: Ok(execution) } => {
            assert_eq!(task_id, TaskId(5));
            assert_eq!(worker_id, 0);
            assert_eq!(execution.exit_code, 0);
            assert_eq!(execution.stdout, "out");
            assert_eq!(execution.duration_ms(), 1000);
        }
        other => panic!("not a successful finish: {:?}", other),
    }
}

#[test]
fn exit_code_seven_is_a_success_with_that_code() {
    match TaskEvent::finished(TaskId(6), 3, exit(7)) {
        TaskEvent::Finished { task_id, worker_id, result: Ok(execution) } => {
            assert_eq!(task_id, TaskId(6));
            assert_eq!(worker_id, 3);
            assert_eq!(execution.exit_code, 7);
        }
        other => panic!("exit code 7 was not taken for a success: {:?}", other),
    }
}

#[test]
fn missing_command_is_a_failure_in_the_event() {
    let job = task(8, "no-such-command");
    let failure = ProcessExecutor::spawn_failed(
        &job.spec.command,
        "No such file or directory (os error 2)".to_string(),
    );
    match TaskEvent::finished(job.id, 0, Err(failure)) {
        TaskEvent::Finished {
            task_id,
            worker_id,
            result: Err(TaskRunError::Executor { message }),
        } => {
            assert_eq!(task_id, TaskId(8));
            assert_eq!(worker_id, 0);
            assert_eq!(
                message,
                "failed to execute command `no-such-command`: No such file or directory (os error 2)"
            );
        }
        other => panic!("a missing command was not taken for a failure: {:?}", other),
    }
}

fn started_scheduler(worker_limit: usize) -> (SchedulerHandle, Vec<IdleWorker>) {
    Scheduler::start(SchedulerConfig { worker_limit })
}

#[test]
fn enqueue_announces_the_task_and_queues_it() {
    let (handle, workers) = started_scheduler(1);
    let mut events = handle.subscribe_events();
    assert!(handle.enqueue(task(21, "true")).is_ok());
    assert!(matches!(
        events.try_recv(),
        Ok(TaskEvent::Queued { task_id }) if task_id == TaskId(21)
    ));
    assert!(matches!(events.try_recv(), Err(TryRecvError::Empty)));
    let received = workers[0].inbox().receiver().try_recv().expect("the task is on the queue");
    assert_eq!(received.id, TaskId(21));
    assert_eq!(received.spec.command, "true");
    assert!(workers[0].inbox().receiver().try_recv().is_err());
}

#[test]
fn enqueue_keeps_the_order_of_submission() {
    let (handle, workers) = started_scheduler(2);
    for id in 0..10u128 {
        assert!(handle.enqueue(task(id, "true")).is_ok());
    }
    for id in 0..10u128 {
        let worker = &workers[(id % 2) as usize];
        assert_eq!(worker.inbox().receiver().try_recv().expect("a queued task").id, TaskId(id));
    }
}

#[test]
fn enqueue_does_not_wait_for_workers() {
    let (handle, workers) = started_scheduler(1);
    for id in 0..1000u128 {
        assert!(handle.enqueue(task(id, "true")).is_ok());
    }
    assert_eq!(workers[0].inbox().receiver().len(), 1000);
}

#[test]
fn enqueue_fails_once_every_worker_is_gone() {
    let (handle, workers) = started_scheduler(3);
    assert!(handle.enqueue(task(1, "true")).is_ok());
    drop(workers);
    assert!(matches!(handle.enqueue(task(2, "true")), Err(SchedulerError::QueueClosed)));
    let copy = handle.clone();
    assert!(matches!(copy.enqueue(task(3, "true")), Err(SchedulerError::QueueClosed)));
}

#[test]
fn enqueue_still_announces_a_task_it_cannot_queue() {
    let (handle, workers) = started_scheduler(1);
    let mut events = handle.subscribe_events();
    drop(workers);
    assert!(handle.enqueue(task(4, "true")).is_err());
    assert!(matches!(
        events.try_recv(),
        Ok(TaskEvent::Queued { task_id }) if task_id == TaskId(4)
    ));
}

#[test]
fn answer_tells_a_taken_task_from_a_closed_queue() {
    assert!(SchedulerHandle::answer(true).is_ok());
    assert!(matches!(SchedulerHandle::answer(false), Err(SchedulerError::QueueClosed)));
}

#[test]
fn worker_publishes_start_and_finish() {
    let (handle, mut workers) = started_scheduler(2);
    let mut events = handle.subscribe_events();
    handle.enqueue(task(31, "sh")).expect("queued");
    let worker = workers.pop().expect("a worker");
    assert_eq!(worker.id(), 1);
    let received = worker.inbox().receiver().try_recv().expect("the task");
    let busy = worker.begin(&received);
    assert_eq!(busy.id(), 1);
    assert_eq!(busy.task_id(), TaskId(31));
    let (idle, heard) = busy.finish(exit(7));
    assert!(heard);
    assert_eq!(idle.id(), 1);

    assert!(matches!(
        events.try_recv(),
        Ok(TaskEvent::Queued { task_id }) if task_id == TaskId(31)
    ));
    assert!(matches!(
        events.try_recv(),
        Ok(TaskEvent::Started { task_id, worker_id }) if task_id == TaskId(31) && worker_id == 1
    ));
    match events.try_recv() {
        Ok(TaskEvent::Finished { task_id, worker_id, result: Ok(execution) }) => {
            assert_eq!(task_id, TaskId(31));
            assert_eq!(worker_id, 1);
            assert_eq!(execution.exit_code, 7);
        }
        other => panic!("not a successful finish: {:?}", other),
    }
    assert!(matches!(events.try_recv(), Err(TryRecvError::Empty)));
}

#[test]
fn worker_goes_on_when_nobody_listens() {
    let (handle, mut workers) = started_scheduler(1);
    handle.enqueue(task(1, "true")).expect("queued");
    handle.enqueue(task(2, "true")).expect("queued");
    let worker = workers.pop().expect("a worker");
    let first = worker.inbox().receiver().try_recv().expect("the first task");
    let (worker, heard) = worker.begin(&first).finish(exit(0));
    assert!(!heard);
    let mut events = handle.subscribe_events();
    let second = worker.inbox().receiver().try_recv().expect("the second task");
    let (_, heard) = worker.begin(&second).finish(exit(0));
    assert!(heard);
    assert!(matches!(
        events.try_recv(),
        Ok(TaskEvent::Started { task_id, .. }) if task_id == TaskId(2)
    ));
    assert!(matches!(
        events.try_recv(),
        Ok(TaskEvent::Finished { task_id, .. }) if task_id == TaskId(2)
    ));
}

#[test]
fn bus_reports_how_many_subscribers_heard() {
    let bus = EventBus::new();
    assert_eq!(bus.publish(TaskEvent::Queued { task_id: TaskId(1) }), None);
    let mut first = bus.subscribe();
    assert_eq!(bus.publish(TaskEvent::Queued { task_id: TaskId(2) }), Some(1));
    let mut second = bus.clone().subscribe();
    assert_eq!(bus.publish(TaskEvent::Queued { task_id: TaskId(3) }), Some(2));
    assert!(matches!(first.try_recv(), Ok(TaskEvent::Queued { task_id }) if task_id == TaskId(2)));
    assert!(matches!(first.try_recv(), Ok(TaskEvent::Queued { task_id }) if task_id == TaskId(3)));
    assert!(matches!(second.try_recv(), Ok(TaskEvent::Queued { task_id }) if task_id == TaskId(3)));
    assert!(matches!(second.try_recv(), Err(TryRecvError::Empty)));
    drop(first);
    drop(second);
    assert_eq!(bus.publish(TaskEvent::Queued { task_id: TaskId(4) }), None);
}

#[test]
fn subscription_does_not_see_earlier_events() {
    let (handle, _workers) = started_scheduler(1);
    let mut early = handle.subscribe_events();
    handle.enqueue(task(1, "true")).expect("queued");
    let mut late = handle.subscribe_events();
    handle.enqueue(task(2, "true")).expect("queued");
    assert!(matches!(early.try_recv(), Ok(TaskEvent::Queued { task_id }) if task_id == TaskId(1)));
    assert!(matches!(early.try_recv(), Ok(TaskEvent::Queued { task_id }) if task_id == TaskId(2)));
    assert!(matches!(late.try_recv(), Ok(TaskEvent::Queued { task_id }) if task_id == TaskId(2)));
    assert!(matches!(late.try_recv(), Err(TryRecvError::Empty)));
}

#[test]
fn slow_subscriber_loses_its_oldest_events() {
    let (handle, _workers) = started_scheduler(1);
    let mut slow = handle.subscribe_events();
    for id in 0..300u128 {
        handle.enqueue(task(id, "true")).expect("queued");
    }
    assert!(matches!(slow.try_recv(), Err(TryRecvError::Lagged(44))));
    for id in 44..300u128 {
        assert!(matches!(
            slow.try_recv(),
            Ok(TaskEvent::Queued { task_id }) if task_id == TaskId(id)
        ));
    }
    assert!(matches!(slow.try_recv(), Err(TryRecvError::Empty)));
}

#[test]
fn subscriber_within_the_buffer_loses_nothing() {
    let (handle, _workers) = started_scheduler(1);
    let mut subscriber = handle.subscribe_events();
    for id in 0..256u128 {
        handle.enqueue(task(id, "true")).expect("queued");
    }
    for id in 0..256u128 {
        assert!(matches!(
            subscriber.try_recv(),
            Ok(TaskEvent::Queued { task_id }) if task_id == TaskId(id)
        ));
    }
}

#[test]
fn worker_takes_the_next_task_after_a_failure() {
    let (handle, mut workers) = started_scheduler(1);
    let mut events = handle.subscribe_events();
    handle.enqueue(task(1, "no-such-command")).expect("queued");
    handle.enqueue(task(2, "true")).expect("queued");
    let worker = workers.pop().expect("a worker");

    let first = worker.inbox().receiver().try_recv().expect("the first task");
    let failure = ProcessExecutor::spawn_failed(&first.spec.command, "not found".to_string());
    let (worker, heard) = worker.begin(&first).finish(Err(failure));
    assert!(heard);
    let second = worker.inbox().receiver().try_recv().expect("the second task");
    let (worker, heard) = worker.begin(&second).finish(exit(0));
    assert!(heard);
    assert_eq!(worker.id(), 0);

    let mut heard_events = Vec::new();
    while let Ok(event) = events.try_recv() {
        heard_events.push(event);
    }
    assert_eq!(heard_events.len(), 6);
    assert!(matches!(
        &heard_events[3],
        TaskEvent::Finished { task_id, worker_id: 0, result: Err(error) }
            if *task_id == TaskId(1)
                && error.to_string()
                    == "executor error: failed to execute command `no-such-command`: not found"
    ));
    assert!(matches!(
        &heard_events[4],
        TaskEvent::Started { task_id, worker_id: 0 } if *task_id == TaskId(2)
    ));
    assert!(matches!(
        &heard_events[5],
        TaskEvent::Finished { task_id, worker_id: 0, result: Ok(execution) }
            if *task_id == TaskId(2) && execution.exit_code == 0
    ));
}

#[test]
fn each_worker_publishes_under_its_own_number() {
    let (handle, workers) = started_scheduler(5);
    let mut events = handle.subscribe_events();
    for id in 0..5u128 {
        handle.enqueue(task(id, "true")).expect("queued");
    }
    for worker in workers {
        let number = worker.id();
        let received = worker.inbox().receiver().try_recv().expect("a task");
        let busy = worker.begin(&received);
        assert_eq!(busy.id(), number);
        assert_eq!(busy.task_id(), received.id);
        let (idle, _) = busy.finish(exit(0));
        assert_eq!(idle.id(), number);
    }
    let mut by_worker = Vec::new();
    while let Ok(event) = events.try_recv() {
        if let TaskEvent::Started { task_id, worker_id } = event {
            by_worker.push((worker_id, task_id));
        }
    }
    assert_eq!(
        by_worker,
        vec![
            (0, TaskId(0)),
            (1, TaskId(1)),
            (2, TaskId(2)),
            (3, TaskId(3)),
            (4, TaskId(4))
        ]
    );
}

#[test]
fn workers_see_the_queue_close_once_every_handle_is_gone() {
    let (handle, workers) = started_scheduler(2);
    let copy = handle.clone();
    handle.enqueue(task(1, "true")).expect("queued");
    drop(handle);
    assert!(!workers[0].inbox().receiver().is_closed());
    drop(copy);
    assert!(workers[0].inbox().receiver().is_closed());
    let last = workers[1].inbox().receiver().try_recv().expect("what was queued is still there");
    assert_eq!(last.id, TaskId(1));
    assert!(matches!(
        workers[0].inbox().receiver().try_recv(),
        Err(async_channel::TryRecvError::Closed)
    ));
}

#[test]
fn inbox_copies_share_one_queue() {
    let (handle, workers) = started_scheduler(1);
    let inbox = workers[0].inbox().clone();
    handle.enqueue(task(1, "true")).expect("queued");
    handle.enqueue(task(2, "true")).expect("queued");
    assert_eq!(inbox.receiver().try_recv().expect("the first task").id, TaskId(1));
    assert_eq!(workers[0].inbox().receiver().try_recv().expect("the second task").id, TaskId(2));
    assert!(inbox.receiver().try_recv().is_err());
}

#[test]
fn subscriptions_of_one_scheduler_listen_to_one_bus() {
    let (handle, _workers) = started_scheduler(1);
    let (other, _others) = started_scheduler(1);
    let first = handle.subscribe_events();
    let second = handle.clone().subscribe_events();
    let foreign = other.subscribe_events();
    assert!(first.same_channel(&second));
    assert!(!first.same_channel(&foreign));
}

#[test]
fn workers_of_one_scheduler_take_from_one_queue() {
    let (_handle, workers) = started_scheduler(3);
    let (_other, others) = started_scheduler(1);
    let first = workers[0].inbox().receiver();
    assert!(first.same_channel(workers[1].inbox().receiver()));
    assert!(first.same_channel(workers[2].inbox().receiver()));
    assert!(first.same_channel(workers[2].inbox().clone().receiver()));
    assert!(!first.same_channel(others[0].inbox().receiver()));
}

#[test]
fn workers_keep_their_queue_and_bus_from_task_to_task() {
    let (handle, mut workers) = started_scheduler(2);
    let mut events = handle.subscribe_events();
    handle.enqueue(task(1, "true")).expect("queued");
    let worker = workers.pop().expect("a worker");
    let received = worker.inbox().receiver().try_recv().expect("the task");
    let (worker, heard) = worker.begin(&received).finish(exit(0));
    assert!(heard);
    assert!(worker.inbox().receiver().same_channel(workers[0].inbox().receiver()));
    let mut count = 0;
    while events.try_recv().is_ok() {
        count += 1;
    }
    assert_eq!(count, 3);
}

#[test]
fn bus_copies_are_one_bus() {
    let bus = EventBus::new();
    let first = bus.subscribe();
    let second = bus.clone().subscribe();
    let foreign = EventBus::new().subscribe();
    assert!(first.same_channel(&second));
    assert!(!first.same_channel(&foreign));
}
