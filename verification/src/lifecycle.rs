//! The life of a connector program, as a state machine.
//!
//! The program passes through its phases in one order. Whoever drives it
//! performs the actions of the phase it is in, in their order and up to the
//! first that fails, reports how that went, and is told the next phase and
//! its actions.

use crate::ast::ConnectorDirection;
use crate::options::{ConnectorOpt, MISSING_CONFIG_EXIT_CODE};
use vstd::prelude::*;

verus! {

/// Where a connector program stands.
#[derive(Clone, Copy, Debug, PartialEq, Eq, Structural)]
pub enum Phase {
    /// The process has started; nothing was done yet.
    Start,
    /// The arguments are searched for the configuration path.
    ParsingArgs,
    /// Logging is started and the configuration is loaded from the path.
    LoadingConfig,
    /// The client and the producer or record stream are constructed.
    ConstructingClient,
    /// The metrics handle is made and registered.
    RegisteringMetrics,
    /// The author's function runs.
    RunningUserFunction,
    /// The author's function returned without error.
    Success,
    /// Loading, construction or the author's function failed.
    Failure,
    /// No configuration path was given; the process ended at once.
    Terminated,
}

/// How the actions of a phase went.
#[derive(Clone, Copy, Debug, PartialEq, Eq, Structural)]
pub enum Outcome {
    /// All were done.
    Completed,
    /// One failed; those after it were not begun.
    Failed,
}

/// One thing that the driver of the program does.
#[derive(Clone, Copy, Debug, PartialEq, Eq, Structural)]
pub enum Action {
    /// Parse the arguments of the process.
    ParseArgs,
    /// Initialize logging for the process.
    InitLogger,
    /// Log the configuration path, at info level.
    ReportPath,
    /// Load the configuration from the path.
    LoadConfig,
    /// Log the configuration in full, at debug level.
    ReportConfig,
    /// Log that processing starts, at info level.
    AnnounceStart,
    /// Construct the client together with a producer.
    ConstructProducer,
    /// Construct the client together with a stream of records.
    ConstructConsumerStream,
    /// Make the metrics handle from the metrics of the client.
    MakeMetrics,
    /// Register the metrics handle with the monitoring of the process.
    RegisterMetrics,
    /// Call the author's function with the configuration and the producer.
    RunWithProducer,
    /// Call the author's function with the configuration and the stream.
    RunWithStream,
    /// Return from `main` without error.
    ReturnSuccess,
    /// Return the error from `main`.
    ReturnError,
    /// Print the diagnostic to standard error.
    PrintDiagnostic,
    /// End the process.
    Exit,
}

/// One move of the machine: the phase that was entered and its actions.
#[derive(Clone, Debug, PartialEq, Eq)]
pub struct Step {
    /// The phase that the program is in now.
    pub phase: Phase,
    /// What is to be done in it, in this order.
    pub actions: Vec<Action>,
}

/// The place of a phase in the order of the program; the three ends share
/// the last place.
pub open spec fn rank(phase: Phase) -> nat {
    match phase {
        Phase::Start => 0,
        Phase::ParsingArgs => 1,
        Phase::LoadingConfig => 2,
        Phase::ConstructingClient => 3,
        Phase::RegisteringMetrics => 4,
        Phase::RunningUserFunction => 5,
        Phase::Success => 6,
        Phase::Failure => 6,
        Phase::Terminated => 6,
    }
}

/// The phases in which the program has ended.
pub open spec fn is_terminal(phase: Phase) -> bool {
    phase == Phase::Success || phase == Phase::Failure || phase == Phase::Terminated
}

/// The phases that can fail. At the start nothing is done, and the
/// registration of metrics has no failure to report.
pub open spec fn can_fail(phase: Phase) -> bool {
    phase == Phase::ParsingArgs || phase == Phase::LoadingConfig || phase
        == Phase::ConstructingClient || phase == Phase::RunningUserFunction
}

/// The actions that write to the log.
pub open spec fn is_report(action: Action) -> bool {
    action == Action::ReportPath || action == Action::ReportConfig || action
        == Action::AnnounceStart
}

/// The actions of a phase, in their order. Logging is started only once a
/// path was found, and before anything is logged. Only construction and
/// the call of the author's function depend on the direction.
pub open spec fn actions_of(direction: ConnectorDirection, phase: Phase) -> Seq<Action> {
    match phase {
        Phase::Start => Seq::empty(),
        Phase::ParsingArgs => seq![Action::ParseArgs],
        Phase::LoadingConfig => seq![
            Action::InitLogger,
            Action::ReportPath,
            Action::LoadConfig,
            Action::ReportConfig,
            Action::AnnounceStart,
        ],
        Phase::ConstructingClient => match direction {
            ConnectorDirection::Source => seq![Action::ConstructProducer],
            ConnectorDirection::Sink => seq![Action::ConstructConsumerStream],
        },
        Phase::RegisteringMetrics => seq![Action::MakeMetrics, Action::RegisterMetrics],
        Phase::RunningUserFunction => match direction {
            ConnectorDirection::Source => seq![Action::RunWithProducer],
            ConnectorDirection::Sink => seq![Action::RunWithStream],
        },
        Phase::Success => seq![Action::ReturnSuccess],
        Phase::Failure => seq![Action::ReturnError],
        Phase::Terminated => seq![Action::PrintDiagnostic, Action::Exit],
    }
}

/// The phase after `phase`, given how its actions went. A phase that has
/// ended has no successor, nor has a failure that cannot happen.
pub open spec fn successor(phase: Phase, outcome: Outcome) -> Option<Phase> {
    match outcome {
        Outcome::Completed => match phase {
            Phase::Start => Some(Phase::ParsingArgs),
            Phase::ParsingArgs => Some(Phase::LoadingConfig),
            Phase::LoadingConfig => Some(Phase::ConstructingClient),
            Phase::ConstructingClient => Some(Phase::RegisteringMetrics),
            Phase::RegisteringMetrics => Some(Phase::RunningUserFunction),
            Phase::RunningUserFunction => Some(Phase::Success),
            _ => None,
        },
        Outcome::Failed => match phase {
            Phase::ParsingArgs => Some(Phase::Terminated),
            Phase::LoadingConfig => Some(Phase::Failure),
            Phase::ConstructingClient => Some(Phase::Failure),
            Phase::RunningUserFunction => Some(Phase::Failure),
            _ => None,
        },
    }
}

/// The exit code of the process, once it has reached an end.
pub open spec fn exit_status(phase: Phase) -> Option<u8> {
    match phase {
        Phase::Success => Some(0u8),
        Phase::Failure => Some(1u8),
        Phase::Terminated => Some(MISSING_CONFIG_EXIT_CODE),
        _ => None,
    }
}

/// The actions of a phase.
pub fn actions(direction: ConnectorDirection, phase: Phase) -> (actions: Vec<Action>)
    ensures
        actions@ == actions_of(direction, phase),
{
    let mut actions: Vec<Action> = Vec::new();
    match phase {
        Phase::Start => {},
        Phase::ParsingArgs => {
            actions.push(Action::ParseArgs);
        },
        Phase::LoadingConfig => {
            actions.push(Action::InitLogger);
            actions.push(Action::ReportPath);
            actions.push(Action::LoadConfig);
            actions.push(Action::ReportConfig);
            actions.push(Action::AnnounceStart);
        },
        Phase::ConstructingClient => match direction {
            ConnectorDirection::Source => {
                actions.push(Action::ConstructProducer);
            },
            ConnectorDirection::Sink => {
                actions.push(Action::ConstructConsumerStream);
            },
        },
        Phase::RegisteringMetrics => {
            actions.push(Action::MakeMetrics);
            actions.push(Action::RegisterMetrics);
        },
        Phase::RunningUserFunction => match direction {
            ConnectorDirection::Source => {
                actions.push(Action::RunWithProducer);
            },
            ConnectorDirection::Sink => {
                actions.push(Action::RunWithStream);
            },
        },
        Phase::Success => {
            actions.push(Action::ReturnSuccess);
        },
        Phase::Failure => {
            actions.push(Action::ReturnError);
        },
        Phase::Terminated => {
            actions.push(Action::PrintDiagnostic);
            actions.push(Action::Exit);
        },
    }
    actions
}

/// The first move: the program is at its start, where nothing is to be
/// done.
pub fn begin(direction: ConnectorDirection) -> (first: Step)
    ensures
        first.phase == Phase::Start,
        first.actions@ == actions_of(direction, Phase::Start),
{
    Step { phase: Phase::Start, actions: actions(direction, Phase::Start) }
}

/// Moves the machine: from the phase and the outcome of its actions to the
/// next phase and the actions of that phase.
pub fn step(direction: ConnectorDirection, phase: Phase, outcome: Outcome) -> (next: Option<
    Step,
>)
    ensures
        match next {
            Some(step) => successor(phase, outcome) == Some(step.phase) && step.actions@
                == actions_of(direction, step.phase),
            None => successor(phase, outcome) is None,
        },
{
    let entered = match outcome {
        Outcome::Completed => match phase {
            Phase::Start => Phase::ParsingArgs,
            Phase::ParsingArgs => Phase::LoadingConfig,
            Phase::LoadingConfig => Phase::ConstructingClient,
            Phase::ConstructingClient => Phase::RegisteringMetrics,
            Phase::RegisteringMetrics => Phase::RunningUserFunction,
            Phase::RunningUserFunction => Phase::Success,
            _ => { return None; },
        },
        Outcome::Failed => match phase {
            Phase::ParsingArgs => Phase::Terminated,
            Phase::LoadingConfig | Phase::ConstructingClient | Phase::RunningUserFunction => {
                Phase::Failure
            },
            _ => { return None; },
        },
    };
    Some(Step { phase: entered, actions: actions(direction, entered) })
}

/// How parsing went: it is done when a path was found, and failed when none
/// was.
pub fn parse_outcome(opt: &Option<ConnectorOpt>) -> (outcome: Outcome)
    ensures
        outcome == (if opt is Some {
            Outcome::Completed
        } else {
            Outcome::Failed
        }),
{
    match opt {
        Some(_) => Outcome::Completed,
        None => Outcome::Failed,
    }
}

/// The exit code of the process in a phase, if the phase is an end.
pub fn exit_code(phase: Phase) -> (code: Option<u8>)
    ensures
        code == exit_status(phase),
{
    match phase {
        Phase::Success => Some(0),
        Phase::Failure => Some(1),
        Phase::Terminated => Some(MISSING_CONFIG_EXIT_CODE),
        _ => None,
    }
}

/// The phases follow one another in order: completed actions lead to the
/// very next phase, and a failed one leads to an end.
pub proof fn lemma_no_phase_is_skipped(phase: Phase, outcome: Outcome)
    requires
        successor(phase, outcome) is Some,
    ensures
        !is_terminal(phase),
        outcome == Outcome::Completed ==> rank(successor(phase, outcome).unwrap()) == rank(phase)
            + 1,
        outcome == Outcome::Completed ==> successor(phase, outcome).unwrap() != Phase::Failure
            && successor(phase, outcome).unwrap() != Phase::Terminated,
        outcome == Outcome::Failed ==> can_fail(phase) && is_terminal(
            successor(phase, outcome).unwrap(),
        ),
{
}

/// The machine moves exactly as long as the program has not ended: every
/// phase before the end has a successor when its actions are completed, and
/// when one fails if it can fail; a phase at the end has none.
pub proof fn lemma_moves_until_the_end(phase: Phase)
    ensures
        successor(phase, Outcome::Completed) is Some <==> !is_terminal(phase),
        successor(phase, Outcome::Failed) is Some <==> can_fail(phase),
        can_fail(phase) ==> !is_terminal(phase),
{
}

/// A missing configuration path ends the process at once, with the
/// diagnostic and exit code 1: the program never enters the path on which
/// errors are returned from `main`. Every later failure is returned from
/// `main`, and also ends the process with exit code 1.
pub proof fn lemma_failures(direction: ConnectorDirection, phase: Phase)
    requires
        can_fail(phase),
    ensures
        phase == Phase::ParsingArgs ==> successor(phase, Outcome::Failed) == Some(
            Phase::Terminated,
        ),
        phase != Phase::ParsingArgs ==> successor(phase, Outcome::Failed) == Some(Phase::Failure),
        actions_of(direction, Phase::Terminated) == seq![Action::PrintDiagnostic, Action::Exit],
        actions_of(direction, Phase::Failure) == seq![Action::ReturnError],
        exit_status(Phase::Terminated) == Some(1u8),
        exit_status(Phase::Failure) == Some(1u8),
{
}

/// The process has an exit code exactly at an end, and only success exits
/// with code 0.
pub proof fn lemma_exit(phase: Phase)
    ensures
        exit_status(phase) is Some <==> is_terminal(phase),
        exit_status(phase) == Some(0u8) <==> phase == Phase::Success,
{
}

/// The two directions pass through the same phases, and do the same in
/// each but two: the construction of the client and the call of the
/// author's function.
pub proof fn lemma_directions_share_lifecycle(phase: Phase)
    ensures
        actions_of(ConnectorDirection::Source, phase) == actions_of(
            ConnectorDirection::Sink,
            phase,
        ) <==> phase != Phase::ConstructingClient && phase != Phase::RunningUserFunction,
{
    if phase == Phase::ConstructingClient || phase == Phase::RunningUserFunction {
        assert(actions_of(ConnectorDirection::Source, phase)[0] != actions_of(
            ConnectorDirection::Sink,
            phase,
        )[0]);
    }
}

/// Logging is started in one phase only, the one that a found path leads
/// to, and there before anything else is done. Nothing is logged in any
/// other phase, and no phase before it or at the end without a path starts
/// logging: a program without a path ends with logging never started.
pub proof fn lemma_logging_follows_parsing(direction: ConnectorDirection, phase: Phase, i: int)
    requires
        0 <= i < actions_of(direction, phase).len(),
    ensures
        actions_of(direction, phase)[i] == Action::InitLogger ==> phase == Phase::LoadingConfig
            && i == 0,
        is_report(actions_of(direction, phase)[i]) ==> phase == Phase::LoadingConfig && i > 0,
        actions_of(direction, phase)[i] == Action::ParseArgs ==> phase == Phase::ParsingArgs,
        successor(Phase::ParsingArgs, Outcome::Completed) == Some(Phase::LoadingConfig),
        successor(Phase::ParsingArgs, Outcome::Failed) == Some(Phase::Terminated),
        forall|before: Phase, outcome: Outcome|
            successor(before, outcome) == Some(Phase::LoadingConfig) ==> before
                == Phase::ParsingArgs && outcome == Outcome::Completed,
{
    assert forall|before: Phase, outcome: Outcome|
        successor(before, outcome) == Some(Phase::LoadingConfig) implies before
        == Phase::ParsingArgs && outcome == Outcome::Completed by {
        lemma_no_phase_is_skipped(before, outcome);
    }
}

/// The phase that a run reaches from `phase` when its phases go as
/// `outcomes` say; `None` when an outcome comes that the phase cannot have.
pub open spec fn reached(phase: Phase, outcomes: Seq<Outcome>) -> Option<Phase>
    decreases outcomes.len(),
{
    if outcomes.len() == 0 {
        Some(phase)
    } else {
        match reached(phase, outcomes.drop_last()) {
            Some(before) => successor(before, outcomes.last()),
            None => None,
        }
    }
}

/// A run in which nothing fails passes through every phase in order and
/// ends in success after six moves.
pub proof fn lemma_successful_run(outcomes: Seq<Outcome>)
    requires
        forall|i: int| 0 <= i < outcomes.len() ==> outcomes[i] == Outcome::Completed,
    ensures
        outcomes.len() <= 6 ==> reached(Phase::Start, outcomes) is Some && rank(
            reached(Phase::Start, outcomes).unwrap(),
        ) == outcomes.len(),
        outcomes.len() == 6 ==> reached(Phase::Start, outcomes) == Some(Phase::Success),
        outcomes.len() > 6 ==> reached(Phase::Start, outcomes) is None,
    decreases outcomes.len(),
{
    if outcomes.len() > 0 {
        lemma_successful_run(outcomes.drop_last());
    }
}

/// A run never leaves an end, and it ends after six moves at most.
pub proof fn lemma_run_is_bounded(outcomes: Seq<Outcome>)
    ensures
        reached(Phase::Start, outcomes) is Some ==> outcomes.len() <= 6 && rank(
            reached(Phase::Start, outcomes).unwrap(),
        ) >= outcomes.len(),
    decreases outcomes.len(),
{
    if outcomes.len() > 0 {
        lemma_run_is_bounded(outcomes.drop_last());
    }
}

/// A run in which no path is found ends at once: it has two moves, the
/// second into the end without a path, and it never enters the phase in
/// which logging is started.
pub proof fn lemma_run_without_path(outcomes: Seq<Outcome>)
    requires
        outcomes.len() >= 2,
        outcomes[1] == Outcome::Failed,
        reached(Phase::Start, outcomes) is Some,
    ensures
        outcomes.len() == 2,
        outcomes[0] == Outcome::Completed,
        reached(Phase::Start, outcomes) == Some(Phase::Terminated),
        reached(Phase::Start, outcomes.take(1)) == Some(Phase::ParsingArgs),
{
    let two = outcomes.take(2);
    let one = outcomes.take(1);
    assert(one.drop_last() =~= Seq::<Outcome>::empty());
    assert(two.drop_last() =~= one);
    assert(reached(Phase::Start, one.drop_last()) == Some(Phase::Start));
    lemma_reached_prefix(outcomes, 2);
    assert(reached(Phase::Start, two) == Some(Phase::Terminated));
    if outcomes.len() > 2 {
        lemma_reached_prefix(outcomes, 3);
        let three = outcomes.take(3);
        assert(three.drop_last() =~= two);
        assert(reached(Phase::Start, three) is None);
    }
    assert(outcomes.take(2) =~= outcomes);
}

/// A run that reaches a phase has reached one after each of its moves.
pub proof fn lemma_reached_prefix(outcomes: Seq<Outcome>, n: int)
    requires
        0 <= n <= outcomes.len(),
        reached(Phase::Start, outcomes) is Some,
    ensures
        reached(Phase::Start, outcomes.take(n)) is Some,
    decreases outcomes.len(),
{
    if n == outcomes.len() {
        assert(outcomes.take(n) =~= outcomes);
    } else {
        assert(outcomes.drop_last().take(n) =~= outcomes.take(n));
        lemma_reached_prefix(outcomes.drop_last(), n);
    }
}

} // verus!
