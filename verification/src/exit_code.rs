//! Exit statuses of the tool.

use vstd::prelude::*;

verus! {

/// The reasons for which the tool gives up, each with an exit status of its own.
#[derive(Clone, Copy, Debug, PartialEq, Eq, Structural)]
pub enum ExitCode {
    /// Not even the tool's own invocation name was handed over.
    MalformedArgs,
    /// No process name was given.
    NoProcess,
    /// The termination helper or the new process could not be started.
    ChildSpawnFailed,
}

/// The exit status of a run that restarted the process.
pub const EXIT_SUCCESS: i32 = 0;

impl ExitCode {
    /// The exit status that stands for this reason.
    pub open spec fn value(self) -> i32 {
        match self {
            ExitCode::MalformedArgs => 1,
            ExitCode::NoProcess => 2,
            ExitCode::ChildSpawnFailed => 3,
        }
    }

    /// The exit status that stands for this reason.
    pub fn code(self) -> (status: i32)
        ensures
            status == self.value(),
            status != EXIT_SUCCESS,
    {
        match self {
            ExitCode::MalformedArgs => 1,
            ExitCode::NoProcess => 2,
            ExitCode::ChildSpawnFailed => 3,
        }
    }
}

} // verus!
