//! Server composition: the startup sequence as a state machine. The driver
//! performs each action that `step` returns and reports its outcome as the
//! next event. The health registry is updated here, in the order that keeps
//! a probe from ever seeing a running service as anything but `SERVING`:
//! register, build reflection, bind, mark serving, then accept.
use crate::health::{status_in, HealthRegistry, ServingStatus};
use crate::service::{business_identity, business_service_name};
use vstd::prelude::*;

verus! {

/// Why the server stopped.
#[derive(Debug, Clone, Copy, PartialEq, Eq, Structural)]
pub enum ServerError {
    /// The listen address is in use, invalid or unavailable.
    BindError,
    /// The transport could not go on accepting connections.
    TransportFailure,
    /// A schema descriptor handed to the reflection registry did not decode.
    MalformedDescriptor,
}

/// Where the startup sequence stands. Each phase but `Idle`, `Accepting`
/// and `Stopped` waits for the outcome of the action that led to it.
#[derive(Debug, Clone, Copy, PartialEq, Eq, Structural)]
pub enum Phase {
    Idle,
    Registering,
    BuildingReflection,
    Binding,
    MarkingServing,
    Accepting,
    Stopped(ServerError),
}

/// The outcome of an action, or the request to begin.
#[derive(Debug, Clone, Copy, PartialEq, Eq, Structural)]
pub enum StartupEvent {
    Start,
    StatusPublished,
    ReflectionBuilt,
    ReflectionRejected,
    Bound,
    BindFailed,
    TransportFailed,
}

/// What the driver is to do next.
#[derive(Debug, Clone, Copy, PartialEq, Eq, Structural)]
pub enum StartupAction {
    /// Publish the business service's health as `UNKNOWN`.
    RegisterHealth,
    /// Build the reflection registry from the descriptor sources.
    BuildReflection,
    /// Bind the listener, without accepting yet.
    Bind,
    /// Publish the business service's health as `SERVING`.
    MarkServing,
    /// Announce the bound address and run the accept loop.
    Accept,
    /// Terminate the process with this error.
    Exit(ServerError),
    /// The event does not apply in this phase: do nothing.
    Nothing,
}

/// The phase and action that follow `event` in phase `p`.
pub open spec fn next(p: Phase, event: StartupEvent) -> (Phase, StartupAction) {
    match (p, event) {
        (Phase::Idle, StartupEvent::Start) => (Phase::Registering, StartupAction::RegisterHealth),
        (Phase::Registering, StartupEvent::StatusPublished) => (Phase::BuildingReflection, StartupAction::BuildReflection),
        (Phase::BuildingReflection, StartupEvent::ReflectionBuilt) => (Phase::Binding, StartupAction::Bind),
        (Phase::BuildingReflection, StartupEvent::ReflectionRejected) => (
            Phase::Stopped(ServerError::MalformedDescriptor),
            StartupAction::Exit(ServerError::MalformedDescriptor),
        ),
        (Phase::Binding, StartupEvent::Bound) => (Phase::MarkingServing, StartupAction::MarkServing),
        (Phase::Binding, StartupEvent::BindFailed) => (
            Phase::Stopped(ServerError::BindError),
            StartupAction::Exit(ServerError::BindError),
        ),
        (Phase::MarkingServing, StartupEvent::StatusPublished) => (Phase::Accepting, StartupAction::Accept),
        (Phase::Accepting, StartupEvent::TransportFailed) => (
            Phase::Stopped(ServerError::TransportFailure),
            StartupAction::Exit(ServerError::TransportFailure),
        ),
        _ => (p, StartupAction::Nothing),
    }
}

/// The health registry's contents in each phase: empty before start, the
/// business service `UNKNOWN` from registration until the listener is bound,
/// `SERVING` from then on.
pub open spec fn health_of(p: Phase) -> Map<Seq<char>, ServingStatus> {
    match p {
        Phase::Idle => Map::empty(),
        Phase::MarkingServing | Phase::Accepting | Phase::Stopped(ServerError::TransportFailure) => map![business_identity() => ServingStatus::Serving],
        _ => map![business_identity() => ServingStatus::Unknown],
    }
}

/// The phase reached and the actions issued when `events` are fed, in
/// order, to a fresh startup sequence.
pub open spec fn run(events: Seq<StartupEvent>) -> (Phase, Seq<StartupAction>)
    decreases events.len(),
{
    if events.len() == 0 {
        (Phase::Idle, Seq::empty())
    } else {
        let before = run(events.drop_last());
        let after = next(before.0, events.last());
        (after.0, before.1.push(after.1))
    }
}

/// The startup sequence and the health registry it keeps.
pub struct Startup {
    phase: Phase,
    health: HealthRegistry,
}

impl View for Startup {
    type V = Phase;

    closed spec fn view(&self) -> Phase {
        self.phase
    }
}

impl Startup {
    /// The registry holds what `health_of` gives for the current phase.
    pub closed spec fn wf(&self) -> bool {
        &&& self.health.wf()
        &&& self.health@ == health_of(self.phase)
    }

    /// A sequence that has done nothing yet.
    pub fn new() -> (r: Startup)
        ensures
            r.wf(),
            r@ == Phase::Idle,
    {
        let health = HealthRegistry::new();
        proof {
            assert(health@ =~= health_of(Phase::Idle));
        }
        Startup { phase: Phase::Idle, health }
    }

    pub fn phase(&self) -> (r: Phase)
        ensures
            r == self@,
    {
        self.phase
    }

    /// Advances by one event and returns the action to perform. `Accept` is
    /// only ever returned once the registry reports the business service as
    /// `SERVING`.
    pub fn step(&mut self, event: StartupEvent) -> (r: StartupAction)
        requires
            old(self).wf(),
        ensures
            final(self).wf(),
            (final(self)@, r) == next(old(self)@, event),
            r == StartupAction::Accept ==> status_in(health_of(final(self)@), business_identity())
                == ServingStatus::Serving,
    {
        let (phase, action) = match (self.phase, event) {
            (Phase::Idle, StartupEvent::Start) => {
                let name = business_service_name();
                self.health.register(name.as_str());
                (Phase::Registering, StartupAction::RegisterHealth)
            },
            (Phase::Registering, StartupEvent::StatusPublished) => (Phase::BuildingReflection, StartupAction::BuildReflection),
            (Phase::BuildingReflection, StartupEvent::ReflectionBuilt) => (Phase::Binding, StartupAction::Bind),
            (Phase::BuildingReflection, StartupEvent::ReflectionRejected) => (
                Phase::Stopped(ServerError::MalformedDescriptor),
                StartupAction::Exit(ServerError::MalformedDescriptor),
            ),
            (Phase::Binding, StartupEvent::Bound) => {
                let name = business_service_name();
                self.health.set_status(name.as_str(), ServingStatus::Serving);
                (Phase::MarkingServing, StartupAction::MarkServing)
            },
            (Phase::Binding, StartupEvent::BindFailed) => (
                Phase::Stopped(ServerError::BindError),
                StartupAction::Exit(ServerError::BindError),
            ),
            (Phase::MarkingServing, StartupEvent::StatusPublished) => (Phase::Accepting, StartupAction::Accept),
            (Phase::Accepting, StartupEvent::TransportFailed) => (
                Phase::Stopped(ServerError::TransportFailure),
                StartupAction::Exit(ServerError::TransportFailure),
            ),
            _ => (self.phase, StartupAction::Nothing),
        };
        self.phase = phase;
        proof {
            assert(self.health@ =~= health_of(self.phase));
        }
        action
    }

    /// What a health probe reports of `identity` in the current phase.
    pub fn check_health(&self, identity: &str) -> (r: ServingStatus)
        requires
            self.wf(),
        ensures
            r == status_in(health_of(self@), identity@),
    {
        self.health.check(identity)
    }
}

/// Once startup has completed, a probe of the business service reports
/// `SERVING` and a probe of any other identity reports `SERVICE_NOT_FOUND`.
pub proof fn lemma_started_is_serving(events: Seq<StartupEvent>, other: Seq<char>)
    requires
        run(events).0 == Phase::Accepting,
        other != business_identity(),
    ensures
        status_in(health_of(run(events).0), business_identity()) == ServingStatus::Serving,
        status_in(health_of(run(events).0), other) == ServingStatus::ServiceNotFound,
{
}

/// In every run, the listener accepts only while the registry already
/// reports the business service as `SERVING`: the status is published
/// before the accept loop starts, never after.
pub proof fn lemma_accept_follows_serving(events: Seq<StartupEvent>, i: int)
    requires
        0 <= i < run(events).1.len(),
        run(events).1[i] == StartupAction::Accept,
    ensures
        status_in(health_of(run(events.take(i + 1)).0), business_identity()) == ServingStatus::Serving,
        exists|j: int| 0 <= j < i && run(events).1[j] == StartupAction::MarkServing,
    decreases events.len(),
{
    lemma_run_invariant(events);
    let prev = events.drop_last();
    if i < run(events).1.len() - 1 {
        assert(run(events).1[i] == run(prev).1[i]);
        assert(events.take(i + 1) =~= prev.take(i + 1));
        lemma_accept_follows_serving(prev, i);
        let j = choose|j: int| 0 <= j < i && run(prev).1[j] == StartupAction::MarkServing;
        assert(run(events).1[j] == run(prev).1[j]);
    } else {
        assert(events.take(i + 1) =~= events);
        lemma_run_invariant(prev);
        lemma_marked_before_accepting(prev);
        let j = choose|j: int| 0 <= j < run(prev).1.len() && run(prev).1[j] == StartupAction::MarkServing;
        assert(run(events).1[j] == run(prev).1[j]);
    }
}

/// Whether action `a` occurs among the actions `acts`.
pub open spec fn issued(acts: Seq<StartupAction>, a: StartupAction) -> bool {
    exists|i: int| 0 <= i < acts.len() && acts[i] == a
}

/// What every run keeps: the accept loop has been started exactly when the
/// phase is `Accepting` or the transport has failed since, and a stopped
/// sequence has issued the exit for its error.
pub open spec fn run_invariant(p: Phase, acts: Seq<StartupAction>) -> bool {
    &&& issued(acts, StartupAction::Accept) <==> (p == Phase::Accepting || p == Phase::Stopped(
        ServerError::TransportFailure,
    ))
    &&& (p matches Phase::Stopped(e) ==> issued(acts, StartupAction::Exit(e)))
}

/// Every run, of any events in any order, keeps `run_invariant`, and
/// issues one action per event.
pub proof fn lemma_run_invariant(events: Seq<StartupEvent>)
    ensures
        run_invariant(run(events).0, run(events).1),
        run(events).1.len() == events.len(),
    decreases events.len(),
{
    if events.len() > 0 {
        let prev = events.drop_last();
        lemma_run_invariant(prev);
        let (p, acts) = run(prev);
        let (q, a) = next(p, events.last());
        let acts2 = acts.push(a);
        assert forall|x: StartupAction| issued(acts, x) implies issued(acts2, x) by {
            let i = choose|i: int| 0 <= i < acts.len() && acts[i] == x;
            assert(acts2[i] == x);
        }
        assert(acts2[acts.len() as int] == a);
        if a != StartupAction::Accept && !issued(acts, StartupAction::Accept) {
            assert(!issued(acts2, StartupAction::Accept));
        }
    }
}

/// Whenever a run is in the phase that waits for the serving status to be
/// published, or beyond it, `MarkServing` has been issued.
proof fn lemma_marked_before_accepting(events: Seq<StartupEvent>)
    requires
        run(events).0 == Phase::MarkingServing || run(events).0 == Phase::Accepting || run(events).0
            == Phase::Stopped(ServerError::TransportFailure),
    ensures
        issued(run(events).1, StartupAction::MarkServing),
    decreases events.len(),
{
    let prev = events.drop_last();
    let (p, acts) = run(prev);
    let acts2 = run(events).1;
    assert(acts2[acts.len() as int] == next(p, events.last()).1);
    if p == Phase::MarkingServing || p == Phase::Accepting || p == Phase::Stopped(ServerError::TransportFailure) {
        lemma_marked_before_accepting(prev);
        let i = choose|i: int| 0 <= i < acts.len() && acts[i] == StartupAction::MarkServing;
        assert(acts2[i] == StartupAction::MarkServing);
    }
}

/// A bind failure stops the server with `BindError` before the accept loop
/// is ever started or announced.
pub proof fn lemma_bind_failure_never_accepts(events: Seq<StartupEvent>)
    requires
        run(events).0 == Phase::Stopped(ServerError::BindError),
    ensures
        issued(run(events).1, StartupAction::Exit(ServerError::BindError)),
        !issued(run(events).1, StartupAction::Accept),
{
    lemma_run_invariant(events);
}

} // verus!
