//! Start of a service: refuse to run beside another instance on the same port,
//! bind the listener, then start the pool of accepting workers.
use vstd::prelude::*;

verus! {

/// Number of workers that take turns accepting on the shared listener.
pub const WORKER_COUNT: usize = 5;

/// Exit status of a service that could not start.
pub const FAILURE_STATUS: i32 = 1;

#[derive(Debug, Clone, Copy, PartialEq, Eq, Structural)]
pub enum StartupPhase {
    /// Trying to connect to the port, to find an instance already there.
    Probing,
    Binding,
    Serving,
    Exited,
}

#[derive(Debug, Clone, Copy, PartialEq, Eq, Structural)]
pub enum StartupEvent {
    /// The probe connected: another instance listens on the port.
    ProbeConnected,
    ProbeRefused,
    Bound,
    BindFailed,
}

#[derive(Debug, Clone, Copy, PartialEq, Eq, Structural)]
pub enum StartupAction {
    /// Try a client connection to the port on the local host.
    Probe(u16),
    /// Bind the listener on the port, on every address.
    Bind(u16),
    /// Start this many workers on the bound listener.
    StartWorkers(usize),
    /// End the process with this status.
    Exit(i32),
    /// Keep serving.
    Wait,
}

pub open spec fn startup_next(port: u16, phase: StartupPhase, event: StartupEvent) -> (
    StartupPhase,
    StartupAction,
) {
    match (phase, event) {
        (StartupPhase::Probing, StartupEvent::ProbeRefused) => (
            StartupPhase::Binding,
            StartupAction::Bind(port),
        ),
        (StartupPhase::Binding, StartupEvent::Bound) => (
            StartupPhase::Serving,
            StartupAction::StartWorkers(5),
        ),
        (StartupPhase::Serving, _) => (StartupPhase::Serving, StartupAction::Wait),
        _ => (StartupPhase::Exited, StartupAction::Exit(1)),
    }
}

pub open spec fn startup_run(port: u16, phase: StartupPhase, events: Seq<StartupEvent>) -> (
    StartupPhase,
    Seq<StartupAction>,
)
    decreases events.len(),
{
    if events.len() == 0 {
        (phase, Seq::empty())
    } else {
        let (p, a) = startup_next(port, phase, events[0]);
        let (q, rest) = startup_run(port, p, events.drop_first());
        (q, seq![a] + rest)
    }
}

/// Whether `actions` bind a listener anywhere.
pub open spec fn binds_listener(actions: Seq<StartupAction>) -> bool {
    exists|i: int, p: u16| 0 <= i < actions.len() && actions[i] == StartupAction::Bind(p)
}

/// The start of one service on one port.
pub struct Startup {
    pub port: u16,
    pub phase: StartupPhase,
}

impl Startup {
    /// A start on `port`; its first action is `first_action()`.
    pub fn new(port: u16) -> (r: Startup)
        ensures
            r.port == port,
            r.phase == StartupPhase::Probing,
    {
        Startup { port, phase: StartupPhase::Probing }
    }

    /// The start begins with the probe for another instance.
    pub fn first_action(&self) -> (r: StartupAction)
        ensures
            r == StartupAction::Probe(self.port),
    {
        StartupAction::Probe(self.port)
    }

    /// Takes the transition for `event` and returns the action to perform.
    pub fn step(&mut self, event: StartupEvent) -> (r: StartupAction)
        ensures
            final(self).port == old(self).port,
            (final(self).phase, r) == startup_next(old(self).port, old(self).phase, event),
    {
        let (p, a) = match (self.phase, event) {
            (StartupPhase::Probing, StartupEvent::ProbeRefused) => (
                StartupPhase::Binding,
                StartupAction::Bind(self.port),
            ),
            (StartupPhase::Binding, StartupEvent::Bound) => (
                StartupPhase::Serving,
                StartupAction::StartWorkers(WORKER_COUNT),
            ),
            (StartupPhase::Serving, _) => (StartupPhase::Serving, StartupAction::Wait),
            _ => (StartupPhase::Exited, StartupAction::Exit(FAILURE_STATUS)),
        };
        self.phase = p;
        a
    }
}

/// An exited start stays exited and binds nothing.
pub proof fn lemma_exited_is_final(port: u16, events: Seq<StartupEvent>)
    ensures
        startup_run(port, StartupPhase::Exited, events).0 == StartupPhase::Exited,
        !binds_listener(startup_run(port, StartupPhase::Exited, events).1),
    decreases events.len(),
{
    if events.len() > 0 {
        lemma_exited_is_final(port, events.drop_first());
        let rest = startup_run(port, StartupPhase::Exited, events.drop_first()).1;
        let all = seq![StartupAction::Exit(1)] + rest;
        assert forall|i: int, p: u16| 0 <= i < all.len() implies all[i] != StartupAction::Bind(
            p,
        ) by {
            if i > 0 {
                assert(all[i] == rest[i - 1]);
            }
        }
    }
}

/// A second instance started while another listens on the port exits with a
/// non-zero status at once, and never binds a listener, whatever happens next.
pub proof fn lemma_second_instance_exits(port: u16, rest: Seq<StartupEvent>)
    ensures
        startup_run(port, StartupPhase::Probing, seq![StartupEvent::ProbeConnected] + rest).1[0]
            == StartupAction::Exit(1),
        FAILURE_STATUS != 0,
        startup_run(port, StartupPhase::Probing, seq![StartupEvent::ProbeConnected] + rest).0
            == StartupPhase::Exited,
        !binds_listener(
            startup_run(port, StartupPhase::Probing, seq![StartupEvent::ProbeConnected] + rest).1,
        ),
{
    let e = seq![StartupEvent::ProbeConnected] + rest;
    assert(e.drop_first() =~= rest);
    lemma_exited_is_final(port, rest);
    let tail = startup_run(port, StartupPhase::Exited, rest).1;
    let all = seq![StartupAction::Exit(1)] + tail;
    assert forall|i: int, p: u16| 0 <= i < all.len() implies all[i] != StartupAction::Bind(p) by {
        if i > 0 {
            assert(all[i] == tail[i - 1]);
        }
    }
}

/// What an accepting worker does after one accept.
#[derive(Debug, Clone, Copy, PartialEq, Eq, Structural)]
pub enum AfterAccept {
    /// Hand the new connection to a handler of its own, then accept again.
    SpawnHandler,
    /// Log the failure and accept again, without backing off.
    LogAndRetry,
}

/// The decision of a worker on the outcome of one accept. Either way the
/// worker keeps accepting; a failed accept is never fatal.
pub fn after_accept(accepted: bool) -> (r: AfterAccept)
    ensures
        accepted ==> r == AfterAccept::SpawnHandler,
        !accepted ==> r == AfterAccept::LogAndRetry,
{
    if accepted {
        AfterAccept::SpawnHandler
    } else {
        AfterAccept::LogAndRetry
    }
}

} // verus!
