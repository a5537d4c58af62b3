//! The gateway: the one way in for callers. It turns a request into a task
//! and, once the scheduler has answered, into an acknowledgement or an
//! error.

use crate::bus::channel_of_subscription;
use crate::scheduler::{SchedulerError, SchedulerHandle};
use crate::task::{is_random_uuid, Task, TaskEvent, TaskId, TaskSpec};
use crate::timestamp::Timestamp;
use std::collections::HashMap;
use std::path::PathBuf;
use vstd::prelude::*;
use vstd::string::StringExecFns;

verus! {

/// What a caller asks of the gateway.
#[derive(Debug, Clone)]
pub struct GatewayRequest {
    pub source: String,
    pub action: GatewayAction,
    pub context: HashMap<String, String>,
}

/// The kinds of work a caller can ask for.
#[derive(Debug, Clone)]
pub enum GatewayAction {
    RunCommand {
        command: String,
        args: Vec<String>,
        cwd: Option<PathBuf>,
        env: HashMap<String, String>,
    },
}

/// The answer to an accepted request: the task made for it and when it was
/// accepted into the queue. It says nothing about the task's completion.
#[derive(Debug, Clone)]
pub struct GatewayAck {
    pub task_id: TaskId,
    pub accepted_at: Timestamp,
}

/// Why the gateway did not accept a request.
#[derive(Debug)]
pub enum GatewayError {
    Dispatch { message: String },
}

impl GatewayError {
    /// The text of this error.
    pub open spec fn text(&self) -> Seq<char> {
        "failed to dispatch task: "@ + self->message@
    }

    /// The gateway's error for a task the scheduler refused: its message is
    /// the text of the scheduler's error.
    pub fn from_scheduler(error: &SchedulerError) -> (wrapped: GatewayError)
        ensures
            wrapped->message@ == error.text(),
    {
        GatewayError::Dispatch { message: error.to_string() }
    }

    /// The text of this error: `failed to dispatch task: ` and the message.
    #[allow(clippy::inherent_to_string)]
    pub fn to_string(&self) -> (text: String)
        ensures
            text@ == self.text(),
    {
        match self {
            GatewayError::Dispatch { message } => {
                String::from_str("failed to dispatch task: ").concat(message.as_str())
            },
        }
    }
}

impl GatewayAction {
    /// What this action asks to run, on behalf of `requester`.
    pub open spec fn spec_for(self, requester: String) -> TaskSpec {
        match self {
            GatewayAction::RunCommand { command, args, cwd, env } => TaskSpec {
                requester,
                command,
                args,
                cwd,
                env,
            },
        }
    }

    /// What this action asks to run, on behalf of `requester`: each field of
    /// the action goes over unchanged.
    pub fn into_task_spec(self, requester: String) -> (spec: TaskSpec)
        ensures
            spec == self.spec_for(requester),
    {
        match self {
            GatewayAction::RunCommand { command, args, cwd, env } => TaskSpec {
                requester,
                command,
                args,
                cwd,
                env,
            },
        }
    }
}

impl GatewayRequest {
    /// What this request asks to run: its action, on behalf of its source.
    /// The context plays no part.
    pub open spec fn task_spec(self) -> TaskSpec {
        self.action.spec_for(self.source)
    }

    /// What this request asks to run.
    pub fn into_task_spec(self) -> (spec: TaskSpec)
        ensures
            spec == self.task_spec(),
    {
        self.action.into_task_spec(self.source)
    }

    /// The task for this request, with a new random identity, created now.
    pub fn into_task(self) -> (task: Task)
        ensures
            task.spec == self.task_spec(),
            is_random_uuid(task.id.0),
            task.created_at@ >= 0,
    {
        Task::new(self.into_task_spec())
    }
}

impl GatewayAck {
    /// The gateway's answer for the task `task_id`, given the scheduler's
    /// answer `enqueued` and the current time `now`: an acknowledgement
    /// stamped `now` where the scheduler accepted the task, the scheduler's
    /// error in the gateway's words where it did not.
    pub fn settle_at(task_id: TaskId, enqueued: Result<(), SchedulerError>, now: Timestamp) -> (answer:
        Result<GatewayAck, GatewayError>)
        ensures
            enqueued is Ok ==> answer == Ok::<GatewayAck, GatewayError>(
                GatewayAck { task_id, accepted_at: now },
            ),
            enqueued matches Err(error) ==> answer is Err && answer->Err_0->message@
                == error.text(),
    {
        match enqueued {
            Ok(()) => Ok(GatewayAck { task_id, accepted_at: now }),
            Err(error) => Err(GatewayError::from_scheduler(&error)),
        }
    }

    /// The gateway's answer for the task `task_id`, given the scheduler's
    /// answer `enqueued`. An acknowledgement is stamped with the time at
    /// which the scheduler's answer is taken.
    pub fn settle(task_id: TaskId, enqueued: Result<(), SchedulerError>) -> (answer: Result<
        GatewayAck,
        GatewayError,
    >)
        ensures
            enqueued is Ok ==> answer is Ok && answer->Ok_0.task_id == task_id
                && answer->Ok_0.accepted_at@ >= 0,
            enqueued matches Err(error) ==> answer is Err && answer->Err_0->message@
                == error.text(),
    {
        match enqueued {
            Ok(()) => GatewayAck::settle_at(task_id, Ok(()), Timestamp::now()),
            Err(error) => Err(GatewayError::from_scheduler(&error)),
        }
    }
}

/// The one way in for callers: submit a request, or subscribe to events.
pub trait ExternalGateway: Send + Sync {
    /// Takes a request in and answers with an acknowledgement, or with the
    /// reason why the request could not be dispatched.
    fn submit(&self, request: GatewayRequest) -> (answer: Result<GatewayAck, GatewayError>);

    /// A new subscription to the events of the tasks submitted.
    fn subscribe_events(&self) -> tokio::sync::broadcast::Receiver<TaskEvent>;
}

/// The gateway in front of one scheduler. It keeps nothing of its own:
/// tasks go to the scheduler's queue, and subscribers are the scheduler's.
pub struct UnifiedGateway {
    scheduler: SchedulerHandle,
}

impl Clone for UnifiedGateway {
    /// One more gateway in front of the same scheduler.
    fn clone(&self) -> (copy: UnifiedGateway)
        ensures
            copy.scheduler().queue() == self.scheduler().queue(),
            copy.scheduler().bus() == self.scheduler().bus(),
    {
        UnifiedGateway { scheduler: self.scheduler.clone() }
    }
}

impl UnifiedGateway {
    /// The scheduler behind this gateway.
    pub closed spec fn scheduler(&self) -> SchedulerHandle {
        self.scheduler
    }

    /// The gateway in front of `scheduler`.
    pub fn new(scheduler: SchedulerHandle) -> (gateway: UnifiedGateway)
        ensures
            gateway.scheduler() == scheduler,
    {
        UnifiedGateway { scheduler }
    }
}

impl ExternalGateway for UnifiedGateway {
    /// Takes a request in: makes the task for it, hands the task to the
    /// scheduler, and answers with the task's identity and the time of its
    /// acceptance. Where the scheduler refuses the task, the answer is the
    /// scheduler's error in the gateway's words; nothing is tried again.
    fn submit(&self, request: GatewayRequest) -> (answer: Result<GatewayAck, GatewayError>)
        ensures
            answer matches Ok(ack) ==> is_random_uuid(ack.task_id.0) && ack.accepted_at@ >= 0,
            answer matches Err(error) ==> error->message@ == SchedulerError::QueueClosed.text(),
    {
        let task = request.into_task();
        let task_id = task.id;
        GatewayAck::settle(task_id, self.scheduler.enqueue(task))
    }

    /// A new subscription to the event bus of the scheduler behind this
    /// gateway, which keeps no events of its own.
    fn subscribe_events(&self) -> (subscription: tokio::sync::broadcast::Receiver<TaskEvent>)
        ensures
            channel_of_subscription(subscription) == self.scheduler().bus(),
    {
        self.scheduler.subscribe_events()
    }
}

} // verus!
