use rrythm_http::{step, Event, Phase, RunAction};

#[test]
fn run_moves_configured_to_binding() {
    assert_eq!(step(Phase::Configured, Event::Run), Some((Phase::Binding, RunAction::Bind)));
}

#[test]
fn successful_bind_starts_serving() {
    assert_eq!(
        step(Phase::Binding, Event::BindSucceeded),
        Some((Phase::Serving, RunAction::Serve))
    );
}

#[test]
fn bind_failure_is_fatal() {
    assert_eq!(step(Phase::Binding, Event::BindFailed), Some((Phase::Terminated, RunAction::Fail)));
}

#[test]
fn serve_failure_is_fatal() {
    assert_eq!(step(Phase::Serving, Event::ServeFailed), Some((Phase::Terminated, RunAction::Fail)));
}

#[test]
fn undefined_transitions_do_not_occur() {
    assert_eq!(step(Phase::Serving, Event::Run), None);
    assert_eq!(step(Phase::Configured, Event::BindSucceeded), None);
    assert_eq!(step(Phase::Terminated, Event::ServeFailed), None);
    assert_eq!(step(Phase::Terminated, Event::Run), None);
}
