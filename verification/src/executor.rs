//! What the pool asks of an executor, and the ways an executor can fail.

pub mod process;

use crate::executor::process::ProcessExecutorError;
use vstd::prelude::*;

verus! {

/// Why an executor could not run a task.
#[derive(Debug)]
pub enum ExecutorError {
    Process(ProcessExecutorError),
}

impl From<ProcessExecutorError> for ExecutorError {
    /// The executor's error that wraps `error`.
    fn from(error: ProcessExecutorError) -> (wrapped: ExecutorError) {
        ExecutorError::Process(error)
    }
}

impl vstd::std_specs::convert::FromSpecImpl<ProcessExecutorError> for ExecutorError {
    open spec fn obeys_from_spec() -> bool {
        true
    }

    open spec fn from_spec(error: ProcessExecutorError) -> ExecutorError {
        ExecutorError::Process(error)
    }
}

impl ExecutorError {
    /// The text of this error: that of the failure it wraps.
    pub open spec fn text(&self) -> Seq<char> {
        self->0.text()
    }

    /// The text of this error: that of the failure it wraps.
    #[allow(clippy::inherent_to_string)]
    pub fn to_string(&self) -> (text: String)
        ensures
            text@ == self.text(),
    {
        match self {
            ExecutorError::Process(inner) => inner.to_string(),
        }
    }
}

} // verus!
