//! Whole runs of the restarter, from the command line to the exit status, and
//! what holds of every one of them.
//!
//! A run is decided by the command line and by how the system answers the two
//! things that the restarter asks of it.

use vstd::prelude::*;
use crate::args::InvocationView;
use crate::exit_code::{ExitCode, EXIT_SUCCESS};
use crate::protocol::{ActionView, EventView, LaunchRequestView};
use crate::respawner::{relaunch, MissingNamePolicy, RespawnerView, StepView};

verus! {

/// How the system answers during one run.
pub struct System {
    /// The termination helper: `Ok` with its report where it ran, `Err` with
    /// the system's message where it could not be started.
    pub termination: Result<bool, Seq<char>>,
    /// The new process: `Ok` where it started, `Err` with the system's message
    /// where it did not.
    pub launch: Result<(), Seq<char>>,
}

impl System {
    /// The event in which a request for termination ends.
    pub open spec fn after_terminate(self) -> EventView {
        match self.termination {
            Ok(success) => EventView::TerminatorExited { success },
            Err(reason) => EventView::TerminatorSpawnFailed { reason },
        }
    }

    /// The event in which a request for a new process ends.
    pub open spec fn after_launch(self) -> EventView {
        match self.launch {
            Ok(_) => EventView::LaunchStarted,
            Err(reason) => EventView::LaunchFailed { reason },
        }
    }
}

impl RespawnerView {
    /// The number of events that this state can still take.
    pub open spec fn remaining(self) -> nat {
        match self {
            RespawnerView::Idle { .. } => 3,
            RespawnerView::Terminating { .. } => 2,
            RespawnerView::Launching { .. } => 1,
            RespawnerView::Finished => 0,
        }
    }
}

/// The steps taken from `state` on `event`, each action answered by `system`,
/// up to and including the step that exits.
pub open spec fn run_from(state: RespawnerView, event: EventView, system: System) -> Seq<
    StepView,
>
    decreases state.remaining(),
{
    match state.step(event) {
        None => seq![],
        Some(step) => match step.action {
            ActionView::Exit { .. } => seq![step],
            ActionView::Terminate { .. } => seq![step] + run_from(
                step.next,
                system.after_terminate(),
                system,
            ),
            ActionView::Launch(_) => seq![step] + run_from(
                step.next,
                system.after_launch(),
                system,
            ),
        },
    }
}

/// The steps of the run on the command line `tokens`.
pub open spec fn run(policy: MissingNamePolicy, tokens: Seq<Seq<char>>, system: System) -> Seq<
    StepView,
> {
    run_from(RespawnerView::Idle { policy }, EventView::Invoked { tokens }, system)
}

/// The actions of a run, in order.
pub open spec fn actions(steps: Seq<StepView>) -> Seq<ActionView> {
    steps.map_values(|step: StepView| step.action)
}

/// The exit status in which a run ends.
pub open spec fn exit_status(steps: Seq<StepView>) -> int
    recommends
        steps.len() > 0,
        steps.last().action is Exit,
{
    steps.last().action->status as int
}

/// What the run on `tokens` asks of the system, in order, where a process is
/// named.
pub open spec fn expected_actions(tokens: Seq<Seq<char>>, system: System) -> Seq<ActionView>
    recommends
        tokens.len() >= 2,
{
    let target = InvocationView { process_name: tokens[1], process_args: tokens.skip(2) };
    let terminate = ActionView::Terminate { name: tokens[1] };
    let failed = ActionView::Exit { status: ExitCode::ChildSpawnFailed.value() };
    match system.termination {
        Err(_) => seq![terminate, failed],
        Ok(_) => seq![
            terminate,
            ActionView::Launch(relaunch(target)),
            if system.launch is Ok {
                ActionView::Exit { status: EXIT_SUCCESS }
            } else {
                failed
            },
        ],
    }
}

/// A run is one linear pass. On a command line that names a process it asks
/// for termination once, then, where the helper ran, for the new process once,
/// and then exits. On any other command line it exits at once.
pub proof fn lemma_run_is_linear(policy: MissingNamePolicy, tokens: Seq<Seq<char>>, system: System)
    ensures
        tokens.len() >= 2 ==> actions(run(policy, tokens, system)) == expected_actions(
            tokens,
            system,
        ),
        tokens.len() < 2 ==> actions(run(policy, tokens, system)) == seq![
            ActionView::Exit { status: if tokens.len() == 0 { 1i32 } else { 2i32 } },
        ],
        run(policy, tokens, system).len() > 0,
        run(policy, tokens, system).last().action is Exit,
        run(policy, tokens, system).last().next is Finished,
{
    reveal_with_fuel(run_from, 4);
    let steps = run(policy, tokens, system);
    if tokens.len() >= 2 {
        assert(actions(steps) =~= expected_actions(tokens, system));
    } else {
        assert(actions(steps) =~= seq![
            ActionView::Exit { status: if tokens.len() == 0 { 1i32 } else { 2i32 } },
        ]);
    }
}

/// A command line that holds the invocation name and nothing else ends in the
/// exit status 2, and nothing is asked of the system: neither termination nor
/// a new process.
pub proof fn lemma_missing_name_touches_no_process(
    policy: MissingNamePolicy,
    tokens: Seq<Seq<char>>,
    system: System,
)
    requires
        tokens.len() == 1,
    ensures
        exit_status(run(policy, tokens, system)) == ExitCode::NoProcess.value() == 2,
        forall|i: int|
            0 <= i < run(policy, tokens, system).len() ==> !(#[trigger] run(
                policy,
                tokens,
                system,
            )[i]).action.touches_process(),
{
    reveal_with_fuel(run_from, 2);
}

/// An empty command line ends in the exit status 1, and nothing is asked of
/// the system.
pub proof fn lemma_empty_command_line_touches_no_process(
    policy: MissingNamePolicy,
    tokens: Seq<Seq<char>>,
    system: System,
)
    requires
        tokens.len() == 0,
    ensures
        exit_status(run(policy, tokens, system)) == ExitCode::MalformedArgs.value() == 1,
        forall|i: int|
            0 <= i < run(policy, tokens, system).len() ==> !(#[trigger] run(
                policy,
                tokens,
                system,
            )[i]).action.touches_process(),
{
    reveal_with_fuel(run_from, 2);
}

/// Where the named program cannot be started, the run ends in the exit
/// status 3, and it has asked for termination first.
pub proof fn lemma_failed_launch_exits_after_termination(
    policy: MissingNamePolicy,
    tokens: Seq<Seq<char>>,
    system: System,
)
    requires
        tokens.len() >= 2,
        system.launch is Err,
    ensures
        exit_status(run(policy, tokens, system)) == ExitCode::ChildSpawnFailed.value() == 3,
        run(policy, tokens, system)[0].action == (ActionView::Terminate { name: tokens[1] }),
        run(policy, tokens, system).len() >= 2,
{
    reveal_with_fuel(run_from, 4);
}

/// What the termination helper reports never stands in the way of the
/// relaunch. Whether it stopped a process or found none, the run asks for the
/// same actions; and where the program then starts, the run ends in success.
pub proof fn lemma_termination_report_never_blocks_relaunch(
    policy: MissingNamePolicy,
    tokens: Seq<Seq<char>>,
    launch: Result<(), Seq<char>>,
)
    requires
        tokens.len() >= 2,
    ensures
        actions(run(policy, tokens, System { termination: Ok(false), launch })) == actions(
            run(policy, tokens, System { termination: Ok(true), launch }),
        ),
        actions(run(policy, tokens, System { termination: Ok(false), launch }))[1]
            is Launch,
        launch is Ok ==> exit_status(
            run(policy, tokens, System { termination: Ok(false), launch }),
        ) == EXIT_SUCCESS,
{
    let stopped = System { termination: Ok(true), launch };
    let none_found = System { termination: Ok(false), launch };
    lemma_run_is_linear(policy, tokens, stopped);
    lemma_run_is_linear(policy, tokens, none_found);
    reveal_with_fuel(run_from, 4);
}

/// A second run on the same command line, against a target that the first
/// run has left stopped or that was never there, goes as the first one did
/// after its termination step: it asks for the same relaunch and, where the
/// program starts, ends in success.
pub proof fn lemma_restart_is_repeatable(
    policy: MissingNamePolicy,
    tokens: Seq<Seq<char>>,
    first: System,
    second: System,
)
    requires
        tokens.len() >= 2,
        first.termination is Ok,
        first.launch is Ok,
        second.termination == Ok::<bool, Seq<char>>(false),
        second.launch is Ok,
    ensures
        actions(run(policy, tokens, second)) == actions(run(policy, tokens, first)),
        exit_status(run(policy, tokens, second)) == EXIT_SUCCESS,
{
    lemma_run_is_linear(policy, tokens, first);
    lemma_run_is_linear(policy, tokens, second);
    reveal_with_fuel(run_from, 4);
}

/// Every new process that a run asks for is the program named by token 1,
/// with exactly the tokens that follow it as its arguments: as many, the same,
/// in the same order.
pub proof fn lemma_arguments_pass_through(
    policy: MissingNamePolicy,
    tokens: Seq<Seq<char>>,
    system: System,
    i: int,
)
    requires
        0 <= i < run(policy, tokens, system).len(),
        run(policy, tokens, system)[i].action is Launch,
    ensures
        tokens.len() >= 2,
        run(policy, tokens, system)[i].action->Launch_0.program == tokens[1],
        run(policy, tokens, system)[i].action->Launch_0.args == tokens.skip(2),
        run(policy, tokens, system)[i].action->Launch_0.args.len() == tokens.len() - 2,
        forall|k: int|
            0 <= k < tokens.len() - 2 ==> run(
                policy,
                tokens,
                system,
            )[i].action->Launch_0.args[k] == tokens[k + 2],
{
    reveal_with_fuel(run_from, 4);
}

/// Where a process is named and the termination helper ran, the run does ask
/// for the new process.
pub proof fn lemma_relaunch_is_attempted(
    policy: MissingNamePolicy,
    tokens: Seq<Seq<char>>,
    system: System,
)
    requires
        tokens.len() >= 2,
        system.termination is Ok,
    ensures
        run(policy, tokens, system).len() == 3,
        run(policy, tokens, system)[1].action == ActionView::Launch(
            relaunch(InvocationView { process_name: tokens[1], process_args: tokens.skip(2) }),
        ),
{
    reveal_with_fuel(run_from, 4);
}

/// No step, from any state on any event, asks for a process that is connected
/// to one of the caller's standard streams.
pub proof fn lemma_every_launch_is_detached(state: RespawnerView, event: EventView)
    ensures
        state.step(event) matches Some(step) ==> (step.action matches ActionView::Launch(request)
            ==> request.detached()),
{
}

/// A state takes exactly the events that it waits for, and every step it
/// takes leaves it with fewer events to come.
pub proof fn lemma_steps_advance(state: RespawnerView, event: EventView)
    ensures
        state.step(event) is Some <==> state.awaits(event),
        state.step(event) matches Some(step) ==> step.next.remaining() < state.remaining(),
        state.step(event) matches Some(step) ==> (step.action is Exit <==> step.next is Finished),
{
}

/// No run asks for a process that is connected to one of the caller's
/// standard streams.
pub proof fn lemma_run_launches_detached(
    policy: MissingNamePolicy,
    tokens: Seq<Seq<char>>,
    system: System,
    i: int,
)
    requires
        0 <= i < run(policy, tokens, system).len(),
    ensures
        run(policy, tokens, system)[i].action matches ActionView::Launch(request)
            ==> request.detached(),
{
    reveal_with_fuel(run_from, 4);
}

} // verus!
