use vstd::prelude::*;

verus! {

/// The runtime states of a server: built and waiting (`Configured`),
/// acquiring the listener (`Binding`), accept loop active (`Serving`),
/// and gone (`Terminated`).
#[derive(Clone, Copy, Debug, PartialEq, Eq, Structural)]
pub enum Phase {
    Configured,
    Binding,
    Serving,
    Terminated,
}

/// What the I/O edge reports back to the runtime: the request to run,
/// and the outcome of each fallible step.
#[derive(Clone, Copy, Debug, PartialEq, Eq, Structural)]
pub enum Event {
    Run,
    BindSucceeded,
    BindFailed,
    ServeFailed,
}

/// What the I/O edge must do on entering the next state: acquire the
/// listener, drive the accept loop, or propagate the fatal error to the
/// caller.
#[derive(Clone, Copy, Debug, PartialEq, Eq, Structural)]
pub enum RunAction {
    Bind,
    Serve,
    Fail,
}

/// The transition table of the runtime. A failure is fatal and is never
/// retried; a pair of state and event outside the table never occurs.
pub open spec fn spec_step(p: Phase, e: Event) -> Option<(Phase, RunAction)> {
    match (p, e) {
        (Phase::Configured, Event::Run) => Some((Phase::Binding, RunAction::Bind)),
        (Phase::Binding, Event::BindSucceeded) => Some((Phase::Serving, RunAction::Serve)),
        (Phase::Binding, Event::BindFailed) => Some((Phase::Terminated, RunAction::Fail)),
        (Phase::Serving, Event::ServeFailed) => Some((Phase::Terminated, RunAction::Fail)),
        _ => None,
    }
}

/// Advance the runtime: the next state and the action it demands, or
/// `None` for a pair of state and event that the runtime never produces.
pub fn step(p: Phase, e: Event) -> (r: Option<(Phase, RunAction)>)
    ensures
        r == spec_step(p, e),
{
    match (p, e) {
        (Phase::Configured, Event::Run) => Some((Phase::Binding, RunAction::Bind)),
        (Phase::Binding, Event::BindSucceeded) => Some((Phase::Serving, RunAction::Serve)),
        (Phase::Binding, Event::BindFailed) => Some((Phase::Terminated, RunAction::Fail)),
        (Phase::Serving, Event::ServeFailed) => Some((Phase::Terminated, RunAction::Fail)),
        _ => None,
    }
}

/// Law: a failure event, wherever the table admits it, terminates the
/// runtime and propagates the error; there is no retry and no fallback.
pub proof fn lemma_failures_are_fatal(p: Phase, e: Event)
    requires
        e == Event::BindFailed || e == Event::ServeFailed,
        spec_step(p, e) is Some,
    ensures
        spec_step(p, e) matches Some(t) && t.0 == Phase::Terminated && t.1 == RunAction::Fail,
{
}

/// Law: the runtime reaches `Terminated` only through a failure event.
pub proof fn lemma_termination_needs_failure(p: Phase, e: Event)
    requires
        spec_step(p, e) matches Some(t) && t.0 == Phase::Terminated,
    ensures
        e == Event::BindFailed || e == Event::ServeFailed,
{
}

} // verus!
