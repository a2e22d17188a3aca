//! What passes between the restarter and its caller: the actions that the
//! restarter asks for, the events that the caller reports, and the lines to
//! print.

use vstd::prelude::*;
use crate::args::texts;

verus! {

/// The stream on which a line is printed.
#[derive(Clone, Copy, Debug, PartialEq, Eq, Structural)]
pub enum Channel {
    Stdout,
    Stderr,
}

/// One line for the user.
#[derive(Clone, Debug, PartialEq, Eq)]
pub struct Line {
    pub channel: Channel,
    pub text: String,
}

/// A [`Line`] as plain text.
pub struct LineView {
    pub channel: Channel,
    pub text: Seq<char>,
}

impl View for Line {
    type V = LineView;

    open spec fn view(&self) -> LineView {
        LineView { channel: self.channel, text: self.text@ }
    }
}

/// Each line as plain text, in order.
pub open spec fn line_views(lines: Seq<Line>) -> Seq<LineView> {
    lines.map_values(|line: Line| line@)
}

/// What a standard stream of a new process is connected to.
#[derive(Clone, Copy, Debug, PartialEq, Eq, Structural)]
pub enum StdioMode {
    /// The caller's own stream.
    Inherit,
    /// Nothing: input is empty and output is discarded.
    Null,
}

/// A request to start a program and to let it go, without waiting for it.
#[derive(Clone, Debug, PartialEq, Eq)]
pub struct LaunchRequest {
    pub program: String,
    pub args: Vec<String>,
    pub stdin: StdioMode,
    pub stdout: StdioMode,
    pub stderr: StdioMode,
}

/// A [`LaunchRequest`] as plain text.
pub struct LaunchRequestView {
    pub program: Seq<char>,
    pub args: Seq<Seq<char>>,
    pub stdin: StdioMode,
    pub stdout: StdioMode,
    pub stderr: StdioMode,
}

impl LaunchRequestView {
    /// None of the three standard streams is the caller's.
    pub open spec fn detached(self) -> bool {
        self.stdin == StdioMode::Null && self.stdout == StdioMode::Null && self.stderr
            == StdioMode::Null
    }
}

impl View for LaunchRequest {
    type V = LaunchRequestView;

    open spec fn view(&self) -> LaunchRequestView {
        LaunchRequestView {
            program: self.program@,
            args: texts(self.args@),
            stdin: self.stdin,
            stdout: self.stdout,
            stderr: self.stderr,
        }
    }
}

/// What the caller is to do next.
#[derive(Clone, Debug, PartialEq, Eq)]
pub enum Action {
    /// Ask every process called `name` to stop, and wait for the helper that
    /// does so to end.
    Terminate { name: String },
    /// Start a new process.
    Launch(LaunchRequest),
    /// Leave with this exit status.
    Exit { status: i32 },
}

/// An [`Action`] as plain text.
pub enum ActionView {
    Terminate { name: Seq<char> },
    Launch(LaunchRequestView),
    Exit { status: i32 },
}

impl View for Action {
    type V = ActionView;

    open spec fn view(&self) -> ActionView {
        match self {
            Action::Terminate { name } => ActionView::Terminate { name: name@ },
            Action::Launch(request) => ActionView::Launch(request@),
            Action::Exit { status } => ActionView::Exit { status: *status },
        }
    }
}

impl ActionView {
    /// The action reaches out to a process of the system.
    pub open spec fn touches_process(self) -> bool {
        !(self is Exit)
    }
}

/// What the caller reports.
#[derive(Clone, Debug, PartialEq, Eq)]
pub enum Event {
    /// The tool was invoked with these tokens, its own name first.
    Invoked { tokens: Vec<String> },
    /// The termination helper ran to its end; `success` is false where it
    /// found no process of that name or could not stop one.
    TerminatorExited { success: bool },
    /// The termination helper could not be started.
    TerminatorSpawnFailed { reason: String },
    /// The new process was started.
    LaunchStarted,
    /// The new process could not be started.
    LaunchFailed { reason: String },
}

/// An [`Event`] as plain text.
pub enum EventView {
    Invoked { tokens: Seq<Seq<char>> },
    TerminatorExited { success: bool },
    TerminatorSpawnFailed { reason: Seq<char> },
    LaunchStarted,
    LaunchFailed { reason: Seq<char> },
}

impl View for Event {
    type V = EventView;

    open spec fn view(&self) -> EventView {
        match self {
            Event::Invoked { tokens } => EventView::Invoked { tokens: texts(tokens@) },
            Event::TerminatorExited { success } => EventView::TerminatorExited {
                success: *success,
            },
            Event::TerminatorSpawnFailed { reason } => EventView::TerminatorSpawnFailed {
                reason: reason@,
            },
            Event::LaunchStarted => EventView::LaunchStarted,
            Event::LaunchFailed { reason } => EventView::LaunchFailed { reason: reason@ },
        }
    }
}

} // verus!
