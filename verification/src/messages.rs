//! The lines that the tool prints, as text.
//!
//! Every failure is one line that begins with a severity tag; success is one
//! line that names the restarted process.

use vstd::prelude::*;
use vstd::string::*;

verus! {

/// Text of the usage hint for a tool invoked as `exe_name`.
pub open spec fn usage_text(exe_name: Seq<char>) -> Seq<char> {
    exe_name + " <process_name> [process_args]"@
}

/// Text of the error for an argument list without even an invocation name.
pub open spec fn malformed_args_text() -> Seq<char> {
    "ERROR: CLI arguments are malformed."@
}

/// Text of the error for an invocation that names no process.
pub open spec fn no_process_text() -> Seq<char> {
    "ERROR: No process provided to restart!"@
}

/// Text of the error for a termination helper that could not be started;
/// `reason` is the system's own message.
pub open spec fn terminator_spawn_failed_text(reason: Seq<char>) -> Seq<char> {
    "ERROR: Failed to spawn pkill child: "@ + reason
}

/// Text of the warning for a termination helper that ran and reported failure.
pub open spec fn termination_failed_text() -> Seq<char> {
    "WARNING: Failed to kill process. Attempting to start new process anyways"@
}

/// Text of the error for a process that could not be started again;
/// `reason` is the system's own message.
pub open spec fn launch_failed_text(process_name: Seq<char>, reason: Seq<char>) -> Seq<char> {
    "ERROR: Failed to spawn "@ + process_name + ": "@ + reason
}

/// Text of the confirmation that `process_name` was started again.
pub open spec fn restarted_text(process_name: Seq<char>) -> Seq<char> {
    process_name + " restarted successfully!"@
}

/// The usage hint for a tool invoked as `exe_name`.
pub fn usage_line(exe_name: &str) -> (line: String)
    ensures
        line@ == usage_text(exe_name@),
{
    String::from_str(exe_name).concat(" <process_name> [process_args]")
}

/// The error for an argument list without even an invocation name.
pub fn malformed_args_line() -> (line: String)
    ensures
        line@ == malformed_args_text(),
{
    String::from_str("ERROR: CLI arguments are malformed.")
}

/// The error for an invocation that names no process.
pub fn no_process_line() -> (line: String)
    ensures
        line@ == no_process_text(),
{
    String::from_str("ERROR: No process provided to restart!")
}

/// The error for a termination helper that could not be started.
pub fn terminator_spawn_failed_line(reason: &str) -> (line: String)
    ensures
        line@ == terminator_spawn_failed_text(reason@),
{
    String::from_str("ERROR: Failed to spawn pkill child: ").concat(reason)
}

/// The warning for a termination helper that ran and reported failure.
pub fn termination_failed_line() -> (line: String)
    ensures
        line@ == termination_failed_text(),
{
    String::from_str("WARNING: Failed to kill process. Attempting to start new process anyways")
}

/// The error for a process that could not be started again.
pub fn launch_failed_line(process_name: &str, reason: &str) -> (line: String)
    ensures
        line@ == launch_failed_text(process_name@, reason@),
{
    String::from_str("ERROR: Failed to spawn ").concat(process_name).concat(": ").concat(reason)
}

/// The confirmation that `process_name` was started again.
pub fn restarted_line(process_name: &str) -> (line: String)
    ensures
        line@ == restarted_text(process_name@),
{
    String::from_str(process_name).concat(" restarted successfully!")
}

} // verus!
