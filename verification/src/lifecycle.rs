//! Startup and shutdown as a state machine: which step runs next, what a
//! failure does, and how a shutdown signal is answered. The caller performs
//! each action and reports what happened.

use vstd::prelude::*;

verus! {

/// The steps of startup, in the order in which they run.
#[derive(Clone, Copy, Debug, PartialEq, Eq, Structural)]
pub enum Step {
    /// Set up the logging sinks.
    Logging,
    /// Open and validate the storage connection pool.
    Storage,
    /// Build the shared state: caches, queue and counters, all empty.
    State,
    /// Spawn the two periodic metrics tasks.
    MetricsTasks,
    /// Spawn the workers that drain the queue.
    WorkerPool,
    /// Bind the network listener.
    Listener,
}

/// The two sources of a shutdown request.
#[derive(Clone, Copy, Debug, PartialEq, Eq, Structural)]
pub enum Signal {
    /// An interrupt from the terminal.
    Interrupt,
    /// A termination request from the system.
    Terminate,
}

/// Where the process stands.
#[derive(Clone, Copy, Debug, PartialEq, Eq, Structural)]
pub enum Phase {
    /// Startup, with the step that is running.
    Starting(Step),
    /// Accepting and handling requests.
    Serving,
    /// No new connections; requests in flight are finishing.
    Draining,
    /// Shut down in order.
    Stopped,
    /// A fatal failure: the process does not serve.
    Failed,
}

/// What the caller reports back.
#[derive(Clone, Copy, Debug, PartialEq, Eq, Structural)]
pub enum Event {
    /// The running startup step finished.
    StepSucceeded,
    /// The running startup step failed.
    StepFailed,
    /// A shutdown signal arrived.
    Signalled(Signal),
    /// A signal handler could not be installed.
    HandlerFailed,
    /// The last request in flight finished.
    Drained,
}

/// What the caller is to do next.
#[derive(Clone, Copy, Debug, PartialEq, Eq, Structural)]
pub enum Action {
    /// Run this startup step.
    Run(Step),
    /// Start accepting connections.
    Serve,
    /// Stop accepting connections and let requests in flight finish.
    StopAccepting(Signal),
    /// Leave the process in order.
    Exit,
    /// Give up: the failure is fatal.
    Abort,
    /// Nothing to do; the event does not concern this phase.
    Nothing,
}

/// Position of a step in the startup order, from zero.
pub open spec fn step_index(step: Step) -> nat {
    match step {
        Step::Logging => 0,
        Step::Storage => 1,
        Step::State => 2,
        Step::MetricsTasks => 3,
        Step::WorkerPool => 4,
        Step::Listener => 5,
    }
}

/// The step that follows `step`, if it is not the last.
pub open spec fn next_step(step: Step) -> Option<Step> {
    match step {
        Step::Logging => Some(Step::Storage),
        Step::Storage => Some(Step::State),
        Step::State => Some(Step::MetricsTasks),
        Step::MetricsTasks => Some(Step::WorkerPool),
        Step::WorkerPool => Some(Step::Listener),
        Step::Listener => None,
    }
}

/// The phase that follows `phase` on `event`, and the action it calls for.
pub open spec fn transition(phase: Phase, event: Event) -> (Phase, Action) {
    match (phase, event) {
        (Phase::Starting(step), Event::StepSucceeded) => match next_step(step) {
            Some(next) => (Phase::Starting(next), Action::Run(next)),
            None => (Phase::Serving, Action::Serve),
        },
        (Phase::Starting(_), Event::StepFailed) => (Phase::Failed, Action::Abort),
        (Phase::Serving, Event::Signalled(signal)) => (
            Phase::Draining,
            Action::StopAccepting(signal),
        ),
        (Phase::Serving, Event::HandlerFailed) => (Phase::Failed, Action::Abort),
        (Phase::Draining, Event::Drained) => (Phase::Stopped, Action::Exit),
        _ => (phase, Action::Nothing),
    }
}

/// The phase reached from `phase` after `events`, in order.
pub open spec fn after_events(phase: Phase, events: Seq<Event>) -> Phase
    decreases events.len(),
{
    if events.len() == 0 {
        phase
    } else {
        after_events(transition(phase, events[0]).0, events.drop_first())
    }
}

/// How many of `events` report a startup step that succeeded.
pub open spec fn successes(events: Seq<Event>) -> nat
    decreases events.len(),
{
    if events.len() == 0 {
        0
    } else if events[0] == Event::StepSucceeded {
        1 + successes(events.drop_first())
    } else {
        successes(events.drop_first())
    }
}

impl Step {
    /// The step that follows this one, or `None` after the last.
    pub fn next(self) -> (n: Option<Step>)
        ensures
            n == next_step(self),
    {
        match self {
            Step::Logging => Some(Step::Storage),
            Step::Storage => Some(Step::State),
            Step::State => Some(Step::MetricsTasks),
            Step::MetricsTasks => Some(Step::WorkerPool),
            Step::WorkerPool => Some(Step::Listener),
            Step::Listener => None,
        }
    }
}

impl Signal {
    /// The line printed when this signal starts the shutdown.
    pub fn message(self) -> (m: &'static str)
        ensures
            self == Signal::Interrupt ==> m@ == "CTRL+C pressed, exiting..."@,
            self == Signal::Terminate ==> m@ == "Terminate signal received, exiting..."@,
    {
        match self {
            Signal::Interrupt => "CTRL+C pressed, exiting...",
            Signal::Terminate => "Terminate signal received, exiting...",
        }
    }
}

/// The phase and first action of a process that has just begun.
pub fn start() -> (r: (Phase, Action))
    ensures
        r == (Phase::Starting(Step::Logging), Action::Run(Step::Logging)),
{
    (Phase::Starting(Step::Logging), Action::Run(Step::Logging))
}

/// Answers `event` in `phase`: the next phase and what to do.
pub fn advance(phase: Phase, event: Event) -> (r: (Phase, Action))
    ensures
        r == transition(phase, event),
{
    match phase {
        Phase::Starting(step) => match event {
            Event::StepSucceeded => match step.next() {
                Some(next) => (Phase::Starting(next), Action::Run(next)),
                None => (Phase::Serving, Action::Serve),
            },
            Event::StepFailed => (Phase::Failed, Action::Abort),
            _ => (phase, Action::Nothing),
        },
        Phase::Serving => match event {
            Event::Signalled(signal) => (Phase::Draining, Action::StopAccepting(signal)),
            Event::HandlerFailed => (Phase::Failed, Action::Abort),
            _ => (phase, Action::Nothing),
        },
        Phase::Draining => match event {
            Event::Drained => (Phase::Stopped, Action::Exit),
            _ => (phase, Action::Nothing),
        },
        Phase::Stopped => (phase, Action::Nothing),
        Phase::Failed => (phase, Action::Nothing),
    }
}

/// Startup runs its steps in strict order: a step that succeeds is followed
/// by the step one place further on, and the last one by serving.
pub proof fn startup_is_in_order(step: Step)
    ensures
        match next_step(step) {
            Some(next) => step_index(next) == step_index(step) + 1 && transition(
                Phase::Starting(step),
                Event::StepSucceeded,
            ) == (Phase::Starting(next), Action::Run(next)),
            None => step_index(step) == 5 && transition(
                Phase::Starting(step),
                Event::StepSucceeded,
            ) == (Phase::Serving, Action::Serve),
        },
{
}

/// A failure of any startup step is fatal.
pub proof fn startup_failure_is_fatal(step: Step)
    ensures
        transition(Phase::Starting(step), Event::StepFailed) == (Phase::Failed, Action::Abort),
{
}

/// A process that failed or stopped stays so, whatever is reported to it.
pub proof fn end_phases_are_final(phase: Phase, events: Seq<Event>)
    requires
        phase == Phase::Failed || phase == Phase::Stopped,
    ensures
        after_events(phase, events) == phase,
    decreases events.len(),
{
    if events.len() > 0 {
        end_phases_are_final(phase, events.drop_first());
    }
}

/// Serving begins only once every startup step has succeeded: from a running
/// step, the events that lead to serving hold at least one success for that
/// step and for each step after it.
pub proof fn serving_needs_every_step(step: Step, events: Seq<Event>)
    requires
        after_events(Phase::Starting(step), events) == Phase::Serving,
    ensures
        successes(events) >= 6 - step_index(step),
    decreases events.len(),
{
    if events.len() > 0 {
        let rest = events.drop_first();
        let next_phase = transition(Phase::Starting(step), events[0]).0;
        match next_phase {
            Phase::Starting(s) => {
                serving_needs_every_step(s, rest);
            },
            Phase::Serving => {
                assert(events[0] == Event::StepSucceeded && step == Step::Listener);
            },
            Phase::Failed => {
                end_phases_are_final(next_phase, rest);
            },
            _ => {
                assert(false);
            },
        }
    }
}

/// A shutdown signal while serving stops acceptance, and the process exits
/// once the requests in flight have finished.
pub proof fn shutdown_is_graceful(signal: Signal)
    ensures
        transition(Phase::Serving, Event::Signalled(signal)) == (
            Phase::Draining,
            Action::StopAccepting(signal),
        ),
        transition(Phase::Draining, Event::Drained) == (Phase::Stopped, Action::Exit),
{
}

} // verus!
