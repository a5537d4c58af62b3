//! Tasks, their identities, their outcomes, and the events that mark the
//! stages of their lives.

use crate::executor::ExecutorError;
use crate::timestamp::{whole_millis, Timestamp};
use std::collections::HashMap;
use std::path::PathBuf;
use vstd::prelude::*;
use vstd::string::StringExecFns;

verus! {

/// A file system path, carried through unread.
#[verifier::external_type_specification]
#[verifier::external_body]
pub struct ExPathBuf(PathBuf);

/// The bits that mark a 128-bit identifier as a random (version 4) UUID of
/// the RFC variant: the version nibble and the two variant bits.
pub const UUID_MARK_MASK: u128 = 0x0000_0000_0000_f000_c000_0000_0000_0000;

/// The value of the marked bits in a random UUID: version 4, variant `10`.
pub const UUID_MARK_RANDOM: u128 = 0x0000_0000_0000_4000_8000_0000_0000_0000;

/// Whether `bits` carries the version and variant of a random UUID.
pub open spec fn is_random_uuid(bits: u128) -> bool {
    bits & UUID_MARK_MASK == UUID_MARK_RANDOM
}

/// Draws a random UUID with `uuid::Uuid::new_v4` and hands back its
/// `as_u128()`.
///
/// Trusted: whatever the random bits, `new_v4` forces the version nibble to 4
/// and the variant bits to `10`. Nothing is claimed about the other 122 bits;
/// in particular not that two draws differ.
#[verifier::external_body]
fn random_uuid_bits() -> (bits: u128)
    ensures
        is_random_uuid(bits),
{
    uuid::Uuid::new_v4().as_u128()
}

/// The identity of a task: the key that ties its events together.
///
/// Holds the 128 bits of a UUID, most significant byte first.
#[derive(Debug, Clone, Copy, PartialEq, Eq, Hash, Structural)]
pub struct TaskId(pub u128);

impl TaskId {
    /// A new random identity.
    pub fn new() -> (id: TaskId)
        ensures
            is_random_uuid(id.0),
    {
        TaskId(random_uuid_bits())
    }
}

impl Default for TaskId {
    fn default() -> (id: TaskId)
        ensures
            is_random_uuid(id.0),
    {
        TaskId::new()
    }
}

/// What to run: who asked, the command and its arguments, where, and with
/// which environment overrides.
#[derive(Debug, Clone)]
pub struct TaskSpec {
    pub requester: String,
    pub command: String,
    pub args: Vec<String>,
    pub cwd: Option<PathBuf>,
    pub env: HashMap<String, String>,
}

/// One unit of submitted work.
#[derive(Debug, Clone)]
pub struct Task {
    pub id: TaskId,
    pub created_at: Timestamp,
    pub spec: TaskSpec,
}

impl Task {
    /// A task for `spec` with a new random identity, created now.
    pub fn new(spec: TaskSpec) -> (task: Task)
        ensures
            task.spec == spec,
            is_random_uuid(task.id.0),
            task.created_at@ >= 0,
    {
        Task::with_identity(TaskId::new(), Timestamp::now(), spec)
    }

    /// The task for `spec` with the identity and creation time given.
    pub fn with_identity(id: TaskId, created_at: Timestamp, spec: TaskSpec) -> (task: Task)
        ensures
            task == (Task { id, created_at, spec }),
    {
        Task { id, created_at, spec }
    }
}

/// What a task's run produced.
#[derive(Debug)]
pub struct TaskExecution {
    pub exit_code: i32,
    pub stdout: String,
    pub stderr: String,
    pub started_at: Timestamp,
    pub finished_at: Timestamp,
}

impl Clone for TaskExecution {
    fn clone(&self) -> (copy: TaskExecution)
        ensures
            copy == *self,
    {
        TaskExecution {
            exit_code: self.exit_code,
            stdout: self.stdout.clone(),
            stderr: self.stderr.clone(),
            started_at: self.started_at,
            finished_at: self.finished_at,
        }
    }
}

impl TaskExecution {
    /// Whole milliseconds from the start of the run to its finish, rounded
    /// towards zero.
    pub open spec fn elapsed_millis(&self) -> int {
        whole_millis(self.finished_at@ - self.started_at@)
    }

    /// Whole milliseconds from start to finish, rounded towards zero.
    pub fn duration_ms(&self) -> (millis: i64)
        ensures
            millis == self.elapsed_millis(),
    {
        self.started_at.millis_until(&self.finished_at)
    }
}

/// Why a task produced no execution: the executor could not run it.
#[derive(Debug)]
pub enum TaskRunError {
    Executor { message: String },
}

impl Clone for TaskRunError {
    fn clone(&self) -> (copy: TaskRunError)
        ensures
            copy == *self,
    {
        match self {
            TaskRunError::Executor { message } => TaskRunError::Executor {
                message: message.clone(),
            },
        }
    }
}

impl TaskRunError {
    /// The text of this error.
    pub open spec fn text(&self) -> Seq<char> {
        "executor error: "@ + self->message@
    }

    /// The run error that reports `error`: its message is the text of
    /// `error`.
    pub fn from_executor(error: &ExecutorError) -> (reported: TaskRunError)
        ensures
            reported->message@ == error.text(),
    {
        TaskRunError::Executor { message: error.to_string() }
    }

    /// The text of this error: `executor error: ` and the message.
    #[allow(clippy::inherent_to_string)]
    pub fn to_string(&self) -> (text: String)
        ensures
            text@ == self.text(),
    {
        match self {
            TaskRunError::Executor { message } => {
                String::from_str("executor error: ").concat(message.as_str())
            },
        }
    }
}

/// One stage in the life of a task, as announced to subscribers.
#[derive(Debug)]
pub enum TaskEvent {
    Queued { task_id: TaskId },
    Started { task_id: TaskId, worker_id: usize },
    Finished { task_id: TaskId, worker_id: usize, result: Result<TaskExecution, TaskRunError> },
}

impl Clone for TaskEvent {
    fn clone(&self) -> (copy: TaskEvent)
        ensures
            copy == *self,
    {
        match self {
            TaskEvent::Queued { task_id } => TaskEvent::Queued { task_id: *task_id },
            TaskEvent::Started { task_id, worker_id } => TaskEvent::Started {
                task_id: *task_id,
                worker_id: *worker_id,
            },
            TaskEvent::Finished { task_id, worker_id, result } => TaskEvent::Finished {
                task_id: *task_id,
                worker_id: *worker_id,
                result: match result {
                    Ok(execution) => Ok(execution.clone()),
                    Err(error) => Err(error.clone()),
                },
            },
        }
    }
}

impl TaskEvent {
    /// The task this event is about.
    pub open spec fn subject(&self) -> TaskId {
        match *self {
            TaskEvent::Queued { task_id } => task_id,
            TaskEvent::Started { task_id, .. } => task_id,
            TaskEvent::Finished { task_id, .. } => task_id,
        }
    }

    /// The worker that published this event, where a worker did.
    pub open spec fn worker(&self) -> Option<usize> {
        match *self {
            TaskEvent::Queued { .. } => None,
            TaskEvent::Started { worker_id, .. } => Some(worker_id),
            TaskEvent::Finished { worker_id, .. } => Some(worker_id),
        }
    }

    /// Whether `result` is what a `Finished` event reports for an
    /// executor's `outcome`: the execution itself, or a run error whose
    /// message is the text of the executor's error.
    pub open spec fn reports(
        result: Result<TaskExecution, TaskRunError>,
        outcome: Result<TaskExecution, ExecutorError>,
    ) -> bool {
        match outcome {
            Ok(execution) => result == Ok::<TaskExecution, TaskRunError>(execution),
            Err(error) => result is Err && result->Err_0->message@ == error.text(),
        }
    }

    /// The event that announces `task` as accepted into the queue.
    pub fn queued(task: &Task) -> (event: TaskEvent)
        ensures
            event == (TaskEvent::Queued { task_id: task.id }),
    {
        TaskEvent::Queued { task_id: task.id }
    }

    /// The event that announces `task` as started by the worker numbered
    /// `worker_id`.
    pub fn started(task: &Task, worker_id: usize) -> (event: TaskEvent)
        ensures
            event == (TaskEvent::Started { task_id: task.id, worker_id }),
    {
        TaskEvent::Started { task_id: task.id, worker_id }
    }

    /// The event that announces the task `task_id` as finished by the worker
    /// numbered `worker_id`, with the executor's `outcome`. An execution is
    /// reported as it is, whatever its exit code; an executor's error is
    /// reported as a run error that carries its text.
    pub fn finished(
        task_id: TaskId,
        worker_id: usize,
        outcome: Result<TaskExecution, ExecutorError>,
    ) -> (event: TaskEvent)
        ensures
            event matches TaskEvent::Finished { task_id: about, worker_id: by, result } && about
                == task_id && by == worker_id && Self::reports(result, outcome),
    {
        let result: Result<TaskExecution, TaskRunError> = match outcome {
            Ok(execution) => Ok(execution),
            Err(error) => Err(TaskRunError::from_executor(&error)),
        };
        TaskEvent::Finished { task_id, worker_id, result }
    }

    /// The task this event is about.
    #[verifier::when_used_as_spec(subject)]
    pub fn task_id(&self) -> (id: TaskId)
        ensures
            id == self.subject(),
    {
        match self {
            TaskEvent::Queued { task_id } => *task_id,
            TaskEvent::Started { task_id, .. } => *task_id,
            TaskEvent::Finished { task_id, .. } => *task_id,
        }
    }

    /// The worker that published this event, where a worker did.
    #[verifier::when_used_as_spec(worker)]
    pub fn worker_id(&self) -> (id: Option<usize>)
        ensures
            id == self.worker(),
    {
        match self {
            TaskEvent::Queued { .. } => None,
            TaskEvent::Started { worker_id, .. } => Some(*worker_id),
            TaskEvent::Finished { worker_id, .. } => Some(*worker_id),
        }
    }
}

} // verus!
