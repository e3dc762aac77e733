use server::lifecycle::{advance, start, Action, Event, Phase, Signal, Step};

#[test]
fn startup_begins_with_logging() {
    assert_eq!(start(), (Phase::Starting(Step::Logging), Action::Run(Step::Logging)));
}

#[test]
fn steps_follow_in_order() {
    assert_eq!(Step::Logging.next(), Some(Step::Storage));
    assert_eq!(Step::Storage.next(), Some(Step::State));
    assert_eq!(Step::State.next(), Some(Step::MetricsTasks));
    assert_eq!(Step::MetricsTasks.next(), Some(Step::WorkerPool));
    assert_eq!(Step::WorkerPool.next(), Some(Step::Listener));
    assert_eq!(Step::Listener.next(), None);
}

#[test]
fn six_successes_lead_to_serving() {
    let (mut phase, mut action) = start();
    let expected = [
        Action::Run(Step::Storage),
        Action::Run(Step::State),
        Action::Run(Step::MetricsTasks),
        Action::Run(Step::WorkerPool),
        Action::Run(Step::Listener),
        Action::Serve,
    ];
    assert_eq!(action, Action::Run(Step::Logging));
    for want in expected {
        let r = advance(phase, Event::StepSucceeded);
        phase = r.0;
        action = r.1;
        assert_eq!(action, want);
    }
    assert_eq!(phase, Phase::Serving);
}

#[test]
fn storage_failure_is_fatal() {
    let r = advance(Phase::Starting(Step::Storage), Event::StepFailed);
    assert_eq!(r, (Phase::Failed, Action::Abort));
    assert_eq!(advance(r.0, Event::StepSucceeded), (Phase::Failed, Action::Nothing));
}

#[test]
fn listener_failure_is_fatal() {
    assert_eq!(
        advance(Phase::Starting(Step::Listener), Event::StepFailed),
        (Phase::Failed, Action::Abort)
    );
}

#[test]
fn signal_handler_failure_is_fatal() {
    assert_eq!(advance(Phase::Serving, Event::HandlerFailed), (Phase::Failed, Action::Abort));
}

#[test]
fn interrupt_while_serving_drains() {
    assert_eq!(
        advance(Phase::Serving, Event::Signalled(Signal::Interrupt)),
        (Phase::Draining, Action::StopAccepting(Signal::Interrupt))
    );
    assert_eq!(advance(Phase::Draining, Event::Drained), (Phase::Stopped, Action::Exit));
}

#[test]
fn terminate_while_serving_drains() {
    assert_eq!(
        advance(Phase::Serving, Event::Signalled(Signal::Terminate)),
        (Phase::Draining, Action::StopAccepting(Signal::Terminate))
    );
}

#[test]
fn signal_during_startup_is_not_handled() {
    assert_eq!(
        advance(Phase::Starting(Step::State), Event::Signalled(Signal::Interrupt)),
        (Phase::Starting(Step::State), Action::Nothing)
    );
}

#[test]
fn second_signal_while_draining_changes_nothing() {
    assert_eq!(
        advance(Phase::Draining, Event::Signalled(Signal::Terminate)),
        (Phase::Draining, Action::Nothing)
    );
}

#[test]
fn stopped_stays_stopped() {
    assert_eq!(advance(Phase::Stopped, Event::StepSucceeded), (Phase::Stopped, Action::Nothing));
    assert_eq!(advance(Phase::Stopped, Event::Drained), (Phase::Stopped, Action::Nothing));
}

#[test]
fn shutdown_messages() {
    assert_eq!(Signal::Interrupt.message(), "CTRL+C pressed, exiting...");
    assert_eq!(Signal::Terminate.message(), "Terminate signal received, exiting...");
}
