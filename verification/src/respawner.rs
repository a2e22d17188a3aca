//! The restarter: one linear pass from the command line to the exit status.
//!
//! The caller hands over an event, gets lines to print and an action to carry
//! out, and comes back with the event in which that action ended. Each of the
//! two outside actions is asked for at most once.

use vstd::prelude::*;
use vstd::string::*;
use crate::args::{parse_args, parsed, ArgsError, ArgsErrorView, Invocation, InvocationView};
use crate::exit_code::{ExitCode, EXIT_SUCCESS};
use crate::messages::{
    launch_failed_line, launch_failed_text, malformed_args_line, malformed_args_text,
    no_process_line, no_process_text, restarted_line, restarted_text, termination_failed_line,
    termination_failed_text, terminator_spawn_failed_line, terminator_spawn_failed_text,
    usage_line, usage_text,
};
use crate::protocol::{
    line_views, Action, ActionView, Channel, Event, EventView, LaunchRequest, LaunchRequestView,
    Line, LineView, StdioMode,
};

verus! {

/// What is printed where the command line names no process.
#[derive(Clone, Copy, Debug, PartialEq, Eq, Structural)]
pub enum MissingNamePolicy {
    /// The error alone.
    ReportOnly,
    /// The error, then a usage hint that names the tool as it was invoked.
    ReportWithUsage,
}

/// Where a run stands.
#[derive(Clone, Debug, PartialEq, Eq)]
pub enum Respawner {
    /// Nothing was done yet.
    Idle { policy: MissingNamePolicy },
    /// Termination was asked for.
    Terminating { target: Invocation },
    /// The new process was asked for.
    Launching { process_name: String },
    /// The exit status was given.
    Finished,
}

/// A [`Respawner`] as plain text.
pub enum RespawnerView {
    Idle { policy: MissingNamePolicy },
    Terminating { target: InvocationView },
    Launching { process_name: Seq<char> },
    Finished,
}

impl View for Respawner {
    type V = RespawnerView;

    open spec fn view(&self) -> RespawnerView {
        match self {
            Respawner::Idle { policy } => RespawnerView::Idle { policy: *policy },
            Respawner::Terminating { target } => RespawnerView::Terminating { target: target@ },
            Respawner::Launching { process_name } => RespawnerView::Launching {
                process_name: process_name@,
            },
            Respawner::Finished => RespawnerView::Finished,
        }
    }
}

/// What one event leads to.
#[derive(Clone, Debug, PartialEq, Eq)]
pub struct Step {
    /// Lines to print, in this order, before the action.
    pub lines: Vec<Line>,
    /// What to do then.
    pub action: Action,
    /// Where the run stands after that.
    pub next: Respawner,
}

/// A [`Step`] as plain text.
pub struct StepView {
    pub lines: Seq<LineView>,
    pub action: ActionView,
    pub next: RespawnerView,
}

impl View for Step {
    type V = StepView;

    open spec fn view(&self) -> StepView {
        StepView { lines: line_views(self.lines@), action: self.action@, next: self.next@ }
    }
}

/// A line on standard error.
pub open spec fn error_line(text: Seq<char>) -> LineView {
    LineView { channel: Channel::Stderr, text }
}

/// A line on standard output.
pub open spec fn output_line(text: Seq<char>) -> LineView {
    LineView { channel: Channel::Stdout, text }
}

/// The step that ends a run in failure: `lines`, then the exit status of `code`.
pub open spec fn failure(lines: Seq<LineView>, code: ExitCode) -> StepView {
    StepView {
        lines,
        action: ActionView::Exit { status: code.value() },
        next: RespawnerView::Finished,
    }
}

/// The request that starts `target` again: the program under its name, with
/// its arguments as they were given, and none of the caller's streams.
pub open spec fn relaunch(target: InvocationView) -> LaunchRequestView {
    LaunchRequestView {
        program: target.process_name,
        args: target.process_args,
        stdin: StdioMode::Null,
        stdout: StdioMode::Null,
        stderr: StdioMode::Null,
    }
}

/// What is printed for a command line that asks for nothing that can be done.
pub open spec fn args_error_lines(policy: MissingNamePolicy, error: ArgsErrorView) -> Seq<
    LineView,
> {
    match error {
        ArgsErrorView::MalformedArgs => seq![error_line(malformed_args_text())],
        ArgsErrorView::NoProcess { exe_name } => match policy {
            MissingNamePolicy::ReportOnly => seq![error_line(no_process_text())],
            MissingNamePolicy::ReportWithUsage => seq![
                error_line(no_process_text()),
                error_line(usage_text(exe_name)),
            ],
        },
    }
}

impl RespawnerView {
    /// The event answers what this state waits for.
    pub open spec fn awaits(self, event: EventView) -> bool {
        match self {
            RespawnerView::Idle { .. } => event is Invoked,
            RespawnerView::Terminating { .. } => event is TerminatorExited
                || event is TerminatorSpawnFailed,
            RespawnerView::Launching { .. } => event is LaunchStarted || event is LaunchFailed,
            RespawnerView::Finished => false,
        }
    }

    /// What an event leads to; nothing, where this state does not wait for it.
    ///
    /// A command line that names no process ends the run before anything is
    /// asked of the system. A termination helper that cannot be started ends
    /// it too. One that ran is followed by the relaunch whatever it reported;
    /// a report of failure adds a warning and nothing else.
    pub open spec fn step(self, event: EventView) -> Option<StepView> {
        match (self, event) {
            (RespawnerView::Idle { policy }, EventView::Invoked { tokens }) => Some(
                match parsed(tokens) {
                    Ok(target) => StepView {
                        lines: seq![],
                        action: ActionView::Terminate { name: target.process_name },
                        next: RespawnerView::Terminating { target },
                    },
                    Err(error) => failure(args_error_lines(policy, error), error.exit_code()),
                },
            ),
            (
                RespawnerView::Terminating { target },
                EventView::TerminatorExited { success },
            ) => Some(
                StepView {
                    lines: if success {
                        seq![]
                    } else {
                        seq![error_line(termination_failed_text())]
                    },
                    action: ActionView::Launch(relaunch(target)),
                    next: RespawnerView::Launching { process_name: target.process_name },
                },
            ),
            (
                RespawnerView::Terminating { .. },
                EventView::TerminatorSpawnFailed { reason },
            ) => Some(
                failure(
                    seq![error_line(terminator_spawn_failed_text(reason))],
                    ExitCode::ChildSpawnFailed,
                ),
            ),
            (RespawnerView::Launching { process_name }, EventView::LaunchStarted) => Some(
                StepView {
                    lines: seq![output_line(restarted_text(process_name))],
                    action: ActionView::Exit { status: EXIT_SUCCESS },
                    next: RespawnerView::Finished,
                },
            ),
            (
                RespawnerView::Launching { process_name },
                EventView::LaunchFailed { reason },
            ) => Some(
                failure(
                    seq![error_line(launch_failed_text(process_name, reason))],
                    ExitCode::ChildSpawnFailed,
                ),
            ),
            _ => None,
        }
    }
}

/// The step that ends a run in failure: `lines`, then the exit status of `code`.
fn fail(lines: Vec<Line>, code: ExitCode) -> (step: Step)
    ensures
        step@ == failure(line_views(lines@), code),
{
    Step { lines, action: Action::Exit { status: code.code() }, next: Respawner::Finished }
}

/// A line on standard error.
fn on_stderr(text: String) -> (line: Line)
    ensures
        line@ == error_line(text@),
{
    Line { channel: Channel::Stderr, text }
}

/// What is printed for a command line that asks for nothing that can be done.
fn report_args_error(policy: MissingNamePolicy, error: &ArgsError) -> (lines: Vec<Line>)
    ensures
        line_views(lines@) == args_error_lines(policy, error@),
{
    let mut lines: Vec<Line> = Vec::new();
    match error {
        ArgsError::MalformedArgs => {
            lines.push(on_stderr(malformed_args_line()));
        },
        ArgsError::NoProcess { exe_name } => {
            lines.push(on_stderr(no_process_line()));
            match policy {
                MissingNamePolicy::ReportOnly => {},
                MissingNamePolicy::ReportWithUsage => {
                    lines.push(on_stderr(usage_line(exe_name.as_str())));
                },
            }
        },
    }
    assert(line_views(lines@) =~= args_error_lines(policy, error@));
    lines
}

impl Respawner {
    /// A restarter that has done nothing yet.
    pub fn new(policy: MissingNamePolicy) -> (state: Respawner)
        ensures
            state@ == (RespawnerView::Idle { policy }),
    {
        Respawner::Idle { policy }
    }

    /// Whether the run is over.
    pub fn is_finished(&self) -> (finished: bool)
        ensures
            finished <==> self@ is Finished,
    {
        match self {
            Respawner::Finished => true,
            _ => false,
        }
    }

    /// Takes `event` and says what to print, what to do and where the run
    /// then stands. Gives nothing for an event that this state does not wait
    /// for.
    pub fn step(self, event: Event) -> (outcome: Option<Step>)
        ensures
            outcome is Some <==> self@.awaits(event@),
            match self@.step(event@) {
                Some(step) => outcome matches Some(found) && found@ == step,
                None => outcome is None,
            },
    {
        match (self, event) {
            (Respawner::Idle { policy }, Event::Invoked { tokens }) => {
                match parse_args(tokens) {
                    Ok(target) => {
                        let name = target.process_name.clone();
                        let step = Step {
                            lines: Vec::new(),
                            action: Action::Terminate { name },
                            next: Respawner::Terminating { target },
                        };
                        assert(step@.lines =~= seq![]);
                        Some(step)
                    },
                    Err(error) => {
                        let lines = report_args_error(policy, &error);
                        Some(fail(lines, error.exit_code()))
                    },
                }
            },
            (Respawner::Terminating { target }, Event::TerminatorExited { success }) => {
                let mut lines: Vec<Line> = Vec::new();
                if !success {
                    lines.push(on_stderr(termination_failed_line()));
                }
                let process_name = target.process_name.clone();
                let step = Step {
                    lines,
                    action: Action::Launch(
                        LaunchRequest {
                            program: target.process_name,
                            args: target.process_args,
                            stdin: StdioMode::Null,
                            stdout: StdioMode::Null,
                            stderr: StdioMode::Null,
                        },
                    ),
                    next: Respawner::Launching { process_name },
                };
                assert(step@.lines =~= if success {
                    seq![]
                } else {
                    seq![error_line(termination_failed_text())]
                });
                Some(step)
            },
            (Respawner::Terminating { .. }, Event::TerminatorSpawnFailed { reason }) => {
                let mut lines: Vec<Line> = Vec::new();
                lines.push(on_stderr(terminator_spawn_failed_line(reason.as_str())));
                assert(line_views(lines@) =~= seq![
                    error_line(terminator_spawn_failed_text(reason@)),
                ]);
                Some(fail(lines, ExitCode::ChildSpawnFailed))
            },
            (Respawner::Launching { process_name }, Event::LaunchStarted) => {
                let mut lines: Vec<Line> = Vec::new();
                lines.push(
                    Line { channel: Channel::Stdout, text: restarted_line(process_name.as_str()) },
                );
                let step = Step {
                    lines,
                    action: Action::Exit { status: EXIT_SUCCESS },
                    next: Respawner::Finished,
                };
                assert(step@.lines =~= seq![output_line(restarted_text(process_name@))]);
                Some(step)
            },
            (Respawner::Launching { process_name }, Event::LaunchFailed { reason }) => {
                let mut lines: Vec<Line> = Vec::new();
                lines.push(
                    on_stderr(launch_failed_line(process_name.as_str(), reason.as_str())),
                );
                assert(line_views(lines@) =~= seq![
                    error_line(launch_failed_text(process_name@, reason@)),
                ]);
                Some(fail(lines, ExitCode::ChildSpawnFailed))
            },
            _ => None,
        }
    }
}

} // verus!
