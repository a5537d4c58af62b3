//! The executor that runs a task's command as a child process: what it
//! makes of the child's exit and output, and of a failure to start it.

use crate::executor::ExecutorError;
use crate::task::TaskExecution;
use crate::timestamp::Timestamp;
use vstd::prelude::*;
use vstd::string::StringExecFns;
use vstd::utf8::{decode_utf8, valid_utf8};

verus! {

/// The exit code recorded for a child that ended without one, as when a
/// signal killed it.
pub const EXIT_CODE_UNKNOWN: i32 = -1;

/// The text that lossy UTF-8 decoding makes of `bytes`.
pub uninterp spec fn lossy_text(bytes: Seq<u8>) -> Seq<char>;

/// Decodes captured output with `String::from_utf8_lossy`.
///
/// Trusted: the text depends on the bytes alone, and bytes that are valid
/// UTF-8 decode to the text they encode. What takes the place of an invalid
/// sequence is left to the name `lossy_text`.
#[verifier::external_body]
fn decode_lossy(bytes: &[u8]) -> (text: String)
    ensures
        text@ == lossy_text(bytes@),
        valid_utf8(bytes@) ==> text@ == decode_utf8(bytes@),
{
    String::from_utf8_lossy(bytes).into_owned()
}

/// Runs each task's command as a child process of its own.
#[derive(Debug, Clone, Default)]
pub struct ProcessExecutor;

/// Why the process executor could not run a task.
#[derive(Debug)]
pub enum ProcessExecutorError {
    /// The command could not be started or its output not collected;
    /// `source` is the operating system's account of it.
    SpawnOutput { command: String, source: String },
}

impl ProcessExecutorError {
    /// The text of this error.
    pub open spec fn text(&self) -> Seq<char> {
        "failed to execute command `"@ + self->command@ + "`: "@ + self->source@
    }

    /// The text of this error: the command between backquotes, then the
    /// source.
    #[allow(clippy::inherent_to_string)]
    pub fn to_string(&self) -> (text: String)
        ensures
            text@ == self.text(),
    {
        match self {
            ProcessExecutorError::SpawnOutput { command, source } => {
                String::from_str("failed to execute command `").concat(command.as_str()).concat(
                    "`: ",
                ).concat(source.as_str())
            },
        }
    }
}

impl ProcessExecutor {
    /// The exit code recorded for a child that reported `code`.
    pub open spec fn recorded_exit_code(code: Option<i32>) -> i32 {
        match code {
            Some(c) => c,
            None => EXIT_CODE_UNKNOWN,
        }
    }

    /// The execution of a child that ran to its end: its exit code, or -1
    /// where it has none, and its captured output decoded lossily.
    pub fn completed(
        code: Option<i32>,
        stdout: &Vec<u8>,
        stderr: &Vec<u8>,
        started_at: Timestamp,
        finished_at: Timestamp,
    ) -> (execution: TaskExecution)
        ensures
            execution.exit_code == Self::recorded_exit_code(code),
            execution.stdout@ == lossy_text(stdout@),
            execution.stderr@ == lossy_text(stderr@),
            valid_utf8(stdout@) ==> execution.stdout@ == decode_utf8(stdout@),
            valid_utf8(stderr@) ==> execution.stderr@ == decode_utf8(stderr@),
            execution.started_at == started_at,
            execution.finished_at == finished_at,
    {
        let exit_code: i32 = match code {
            Some(c) => c,
            None => EXIT_CODE_UNKNOWN,
        };
        TaskExecution {
            exit_code,
            stdout: decode_lossy(stdout.as_slice()),
            stderr: decode_lossy(stderr.as_slice()),
            started_at,
            finished_at,
        }
    }

    /// The failure of a child that could not be run: `command` is the
    /// task's command, `source` the operating system's account.
    pub fn spawn_failed(command: &String, source: String) -> (error: ExecutorError)
        ensures
            error == ExecutorError::Process(
                ProcessExecutorError::SpawnOutput { command: *command, source },
            ),
    {
        ExecutorError::from(ProcessExecutorError::SpawnOutput { command: command.clone(), source })
    }
}

} // verus!
