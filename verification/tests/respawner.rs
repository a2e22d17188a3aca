use restartutil::args::Invocation;
use restartutil::protocol::{Action, Channel, Event, LaunchRequest, Line, StdioMode};
use restartutil::respawner::{MissingNamePolicy, Respawner, Step};

fn words(items: &[&str]) -> Vec<String> {
    items.iter().map(|item| item.to_string()).collect()
}

fn stderr_line(text: &str) -> Line {
    Line { channel: Channel::Stderr, text: text.to_string() }
}

fn stdout_line(text: &str) -> Line {
    Line { channel: Channel::Stdout, text: text.to_string() }
}

fn detached(program: &str, args: &[&str]) -> LaunchRequest {
    LaunchRequest {
        program: program.to_string(),
        args: words(args),
        stdin: StdioMode::Null,
        stdout: StdioMode::Null,
        stderr: StdioMode::Null,
    }
}

/// What a whole run printed and asked for.
struct Trace {
    lines: Vec<Line>,
    actions: Vec<Action>,
}

impl Trace {
    fn exit_status(&self) -> i32 {
        match self.actions.last() {
            Some(Action::Exit { status }) => *status,
            other => panic!("the run did not end in an exit: {:?}", other),
        }
    }
}

/// Runs the restarter to its end against a system that answers as given.
fn drive(
    policy: MissingNamePolicy,
    tokens: &[&str],
    termination: Result<bool, &str>,
    launch: Result<(), &str>,
) -> Trace {
    let mut trace = Trace { lines: Vec::new(), actions: Vec::new() };
    let mut state = Respawner::new(policy);
    let mut event = Event::Invoked { tokens: words(tokens) };
    loop {
        let Step { lines, action, next } = state.step(event).expect("the event was awaited");
        trace.lines.extend(lines);
        trace.actions.push(action.clone());
        state = next;
        event = match action {
            Action::Terminate { .. } => match termination {
                Ok(success) => Event::TerminatorExited { success },
                Err(reason) => Event::TerminatorSpawnFailed { reason: reason.to_string() },
            },
            Action::Launch(_) => match launch {
                Ok(()) => Event::LaunchStarted,
                Err(reason) => Event::LaunchFailed { reason: reason.to_string() },
            },
            Action::Exit { .. } => {
                assert!(state.is_finished());
                return trace;
            },
        };
    }
}

#[test]
fn restart_of_webapp_succeeds() {
    let trace =
        drive(MissingNamePolicy::ReportWithUsage, &["restartutil", "webapp"], Ok(true), Ok(()));
    assert_eq!(
        trace.actions,
        vec![
            Action::Terminate { name: "webapp".to_string() },
            Action::Launch(detached("webapp", &[])),
            Action::Exit { status: 0 },
        ]
    );
    assert_eq!(trace.lines, vec![stdout_line("webapp restarted successfully!")]);
    assert_eq!(trace.exit_status(), 0);
}

#[test]
fn missing_process_name_prints_usage_and_exits_2() {
    let trace = drive(MissingNamePolicy::ReportWithUsage, &["restartutil"], Ok(true), Ok(()));
    assert_eq!(trace.actions, vec![Action::Exit { status: 2 }]);
    assert_eq!(
        trace.lines,
        vec![
            stderr_line("ERROR: No process provided to restart!"),
            stderr_line("restartutil <process_name> [process_args]"),
        ]
    );
}

#[test]
fn missing_process_name_without_usage_hint() {
    let trace = drive(MissingNamePolicy::ReportOnly, &["restartutil"], Ok(true), Ok(()));
    assert_eq!(trace.actions, vec![Action::Exit { status: 2 }]);
    assert_eq!(trace.lines, vec![stderr_line("ERROR: No process provided to restart!")]);
}

#[test]
fn empty_command_line_exits_1() {
    for policy in [MissingNamePolicy::ReportOnly, MissingNamePolicy::ReportWithUsage] {
        let trace = drive(policy, &[], Ok(true), Ok(()));
        assert_eq!(trace.actions, vec![Action::Exit { status: 1 }]);
        assert_eq!(trace.lines, vec![stderr_line("ERROR: CLI arguments are malformed.")]);
    }
}

#[test]
fn unresolvable_target_exits_3_after_termination() {
    let trace = drive(
        MissingNamePolicy::ReportWithUsage,
        &["restartutil", "no-such-program"],
        Ok(false),
        Err("No such file or directory (os error 2)"),
    );
    assert_eq!(
        trace.actions,
        vec![
            Action::Terminate { name: "no-such-program".to_string() },
            Action::Launch(detached("no-such-program", &[])),
            Action::Exit { status: 3 },
        ]
    );
    assert_eq!(
        trace.lines,
        vec![
            stderr_line(
                "WARNING: Failed to kill process. Attempting to start new process anyways"
            ),
            stderr_line(
                "ERROR: Failed to spawn no-such-program: No such file or directory (os error 2)"
            ),
        ]
    );
}

#[test]
fn unstartable_terminator_exits_3_without_relaunch() {
    let trace = drive(
        MissingNamePolicy::ReportWithUsage,
        &["restartutil", "webapp", "-v"],
        Err("No such file or directory (os error 2)"),
        Ok(()),
    );
    assert_eq!(
        trace.actions,
        vec![Action::Terminate { name: "webapp".to_string() }, Action::Exit { status: 3 }]
    );
    assert_eq!(
        trace.lines,
        vec![stderr_line(
            "ERROR: Failed to spawn pkill child: No such file or directory (os error 2)"
        )]
    );
}

#[test]
fn second_run_against_stopped_target_still_succeeds() {
    let tokens = ["restartutil", "webapp", "--daemon"];
    let first = drive(MissingNamePolicy::ReportWithUsage, &tokens, Ok(true), Ok(()));
    let second = drive(MissingNamePolicy::ReportWithUsage, &tokens, Ok(false), Ok(()));
    assert_eq!(first.actions, second.actions);
    assert_eq!(second.exit_status(), 0);
    assert_eq!(first.lines, vec![stdout_line("webapp restarted successfully!")]);
    assert_eq!(
        second.lines,
        vec![
            stderr_line(
                "WARNING: Failed to kill process. Attempting to start new process anyways"
            ),
            stdout_line("webapp restarted successfully!"),
        ]
    );
}

#[test]
fn arguments_pass_through_unchanged() {
    let trace = drive(
        MissingNamePolicy::ReportWithUsage,
        &["restartutil", "myserver", "--port", "8080", "--verbose"],
        Ok(true),
        Ok(()),
    );
    match &trace.actions[1] {
        Action::Launch(request) => {
            assert_eq!(request.program, "myserver");
            assert_eq!(request.args, words(&["--port", "8080", "--verbose"]));
        },
        other => panic!("expected a launch, got {:?}", other),
    }
    assert_eq!(trace.lines, vec![stdout_line("myserver restarted successfully!")]);
}

#[test]
fn relaunch_is_detached_from_all_three_streams() {
    for termination in [Ok(true), Ok(false)] {
        let trace = drive(
            MissingNamePolicy::ReportOnly,
            &["restartutil", "webapp", "a", "b"],
            termination,
            Ok(()),
        );
        let launches: Vec<&LaunchRequest> = trace
            .actions
            .iter()
            .filter_map(|action| match action {
                Action::Launch(request) => Some(request),
                _ => None,
            })
            .collect();
        assert_eq!(launches.len(), 1);
        assert_eq!(launches[0].stdin, StdioMode::Null);
        assert_eq!(launches[0].stdout, StdioMode::Null);
        assert_eq!(launches[0].stderr, StdioMode::Null);
    }
}

#[test]
fn first_step_asks_for_termination_and_prints_nothing() {
    let step = Respawner::new(MissingNamePolicy::ReportOnly)
        .step(Event::Invoked { tokens: words(&["restartutil", "webapp", "-x"]) })
        .expect("an idle restarter awaits the invocation");
    assert_eq!(
        step,
        Step {
            lines: Vec::new(),
            action: Action::Terminate { name: "webapp".to_string() },
            next: Respawner::Terminating {
                target: Invocation {
                    process_name: "webapp".to_string(),
                    process_args: words(&["-x"]),
                },
            },
        }
    );
}

#[test]
fn events_out_of_turn_are_refused() {
    let idle = Respawner::new(MissingNamePolicy::ReportOnly);
    assert_eq!(idle.clone().step(Event::LaunchStarted), None);
    assert_eq!(idle.clone().step(Event::TerminatorExited { success: true }), None);
    assert_eq!(idle.step(Event::LaunchFailed { reason: "x".to_string() }), None);

    let terminating = Respawner::Terminating {
        target: Invocation { process_name: "webapp".to_string(), process_args: Vec::new() },
    };
    assert_eq!(terminating.clone().step(Event::LaunchStarted), None);
    assert_eq!(terminating.step(Event::Invoked { tokens: words(&["a", "b"]) }), None);

    let launching = Respawner::Launching { process_name: "webapp".to_string() };
    assert_eq!(launching.clone().step(Event::TerminatorExited { success: false }), None);
    assert_eq!(
        launching.step(Event::TerminatorSpawnFailed { reason: "x".to_string() }),
        None
    );

    assert!(Respawner::Finished.is_finished());
    assert_eq!(Respawner::Finished.step(Event::LaunchStarted), None);
    assert_eq!(Respawner::Finished.step(Event::Invoked { tokens: words(&["a", "b"]) }), None);
}
