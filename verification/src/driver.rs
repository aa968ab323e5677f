//! The loop that runs the controller, as a machine that is told what
//! happened and says what to do next.
//!
//! An iteration observes, decides, acts and sleeps, in that order. The
//! machine makes the decisions; whoever drives it performs each request and
//! hands back the matching event. The machine keeps nothing from one
//! iteration to the next: whether the tunnel runs is observed anew each time.

use vstd::prelude::*;
use crate::completion::Completion;
use crate::policy::{policy, Action, ObservedState, ReachabilityState};
use crate::probe::Family;
use crate::service::{command_for, ServiceCommand};

verus! {

/// Where in its iteration the loop stands, named by what it waits for.
#[derive(Clone, Copy, Debug, PartialEq, Eq, Structural)]
pub enum Phase {
    /// Waiting for the observation that opens an iteration.
    Observing,
    /// The tunnel is in use; waiting for the IPv6 probe.
    ProbingV6,
    /// The IPv6 probe failed; waiting for the IPv4 probe.
    ProbingV4,
    /// Waiting for the service manager to carry out an operation.
    Applying(ServiceCommand),
    /// Waiting for the interval to pass.
    Sleeping,
}

/// What happened outside the machine.
#[derive(Clone, Copy, Debug, PartialEq, Eq, Structural)]
pub enum Event {
    /// The uplink and the tunnel were observed.
    Observed(ObservedState),
    /// A probe of the given family ended; `true` if its anchor answered.
    Probed(Family, bool),
    /// The service manager was asked for an operation, and this is how the
    /// call ended.
    Applied(Completion),
    /// The interval has passed.
    Woke,
}

/// What the machine asks to be done next.
#[derive(Clone, Copy, Debug, PartialEq, Eq, Structural)]
pub enum Request {
    /// Observe the uplink and the tunnel.
    Observe,
    /// Probe the anchor of the given family.
    Probe(Family),
    /// Ask the service manager for the operation.
    Apply(ServiceCommand),
    /// Sleep for the given number of seconds.
    Sleep(u64),
}

/// The loop's state: its phase and the fixed interval between iterations.
#[derive(Clone, Copy, Debug, PartialEq, Eq, Structural)]
pub struct Driver {
    pub phase: Phase,
    pub interval_secs: u64,
}

/// The phase in which an action is carried out: `NoOp` goes straight to
/// sleep, every other action first waits for the service manager.
pub open spec fn phase_for(action: Action) -> Phase {
    match command_for(action) {
        Some(command) => Phase::Applying(command),
        None => Phase::Sleeping,
    }
}

/// The phase that follows `phase` on `event`.
///
/// An event that does not answer what the phase waits for changes nothing.
pub open spec fn next_phase(phase: Phase, event: Event) -> Phase {
    match (phase, event) {
        (Phase::Observing, Event::Observed(state)) => {
            if state.tunnel_unneeded() {
                Phase::Applying(ServiceCommand::Stop)
            } else if state.tunnel_missing() {
                Phase::Applying(ServiceCommand::Start)
            } else if state.tunnel_in_use() {
                Phase::ProbingV6
            } else {
                Phase::Sleeping
            }
        },
        (Phase::ProbingV6, Event::Probed(Family::V6, answered)) => {
            if answered {
                Phase::Sleeping
            } else {
                Phase::ProbingV4
            }
        },
        (Phase::ProbingV4, Event::Probed(Family::V4, answered)) => {
            if answered {
                Phase::Applying(ServiceCommand::Restart)
            } else {
                Phase::Sleeping
            }
        },
        (Phase::Applying(_), Event::Applied(_)) => Phase::Sleeping,
        (Phase::Sleeping, Event::Woke) => Phase::Observing,
        _ => phase,
    }
}

/// What a phase waits for.
pub open spec fn request_of(phase: Phase, interval_secs: u64) -> Request {
    match phase {
        Phase::Observing => Request::Observe,
        Phase::ProbingV6 => Request::Probe(Family::V6),
        Phase::ProbingV4 => Request::Probe(Family::V4),
        Phase::Applying(command) => Request::Apply(command),
        Phase::Sleeping => Request::Sleep(interval_secs),
    }
}

/// The event `event` answers what `phase` waits for.
pub open spec fn answers(phase: Phase, event: Event) -> bool {
    match (phase, event) {
        (Phase::Observing, Event::Observed(_)) => true,
        (Phase::ProbingV6, Event::Probed(Family::V6, _)) => true,
        (Phase::ProbingV4, Event::Probed(Family::V4, _)) => true,
        (Phase::Applying(_), Event::Applied(_)) => true,
        (Phase::Sleeping, Event::Woke) => true,
        _ => false,
    }
}

/// The place of a phase in its iteration.
pub open spec fn stage(phase: Phase) -> int {
    match phase {
        Phase::Observing => 0,
        Phase::ProbingV6 => 1,
        Phase::ProbingV4 => 2,
        Phase::Applying(_) => 3,
        Phase::Sleeping => 4,
    }
}

/// The phase in which an iteration's decision is settled, when it opens on
/// `state` and the probes, as far as they are asked for, answer as `reach`
/// says.
pub open spec fn settled_phase(state: ObservedState, reach: ReachabilityState) -> Phase {
    let observed = next_phase(Phase::Observing, Event::Observed(state));
    let probed_v6 = next_phase(observed, Event::Probed(Family::V6, reach.ipv6_reachable));
    next_phase(probed_v6, Event::Probed(Family::V4, reach.ipv4_reachable))
}

impl Driver {
    /// A loop about to open its first iteration.
    pub fn new(interval_secs: u64) -> (driver: Driver)
        ensures
            driver.phase == Phase::Observing,
            driver.interval_secs == interval_secs,
    {
        Driver { phase: Phase::Observing, interval_secs }
    }

    /// What the loop waits for.
    pub fn pending(&self) -> (request: Request)
        ensures
            request == request_of(self.phase, self.interval_secs),
    {
        match self.phase {
            Phase::Observing => Request::Observe,
            Phase::ProbingV6 => Request::Probe(Family::V6),
            Phase::ProbingV4 => Request::Probe(Family::V4),
            Phase::Applying(command) => Request::Apply(command),
            Phase::Sleeping => Request::Sleep(self.interval_secs),
        }
    }

    /// Whether `event` answers what the loop waits for.
    pub fn expects(&self, event: Event) -> (yes: bool)
        ensures
            yes == answers(self.phase, event),
    {
        match (self.phase, event) {
            (Phase::Observing, Event::Observed(_)) => true,
            (Phase::ProbingV6, Event::Probed(Family::V6, _)) => true,
            (Phase::ProbingV4, Event::Probed(Family::V4, _)) => true,
            (Phase::Applying(_), Event::Applied(_)) => true,
            (Phase::Sleeping, Event::Woke) => true,
            _ => false,
        }
    }

    /// Takes in what happened and says what to do next.
    ///
    /// An event that does not answer the pending request is ignored: the
    /// loop stays where it is and asks for the same thing again. How a call
    /// of the service manager ended makes no difference to the loop: it
    /// sleeps and tries again with the next observation.
    pub fn step(&mut self, event: Event) -> (request: Request)
        ensures
            final(self).phase == next_phase(old(self).phase, event),
            final(self).interval_secs == old(self).interval_secs,
            request == request_of(final(self).phase, final(self).interval_secs),
            !answers(old(self).phase, event) ==> *final(self) == *old(self),
    {
        let next = match (self.phase, event) {
            (Phase::Observing, Event::Observed(state)) => {
                if state.tunnel_active && (state.has_public_ipv6 || !state.has_ipv4) {
                    Phase::Applying(ServiceCommand::Stop)
                } else if state.has_ipv4 {
                    if !state.has_public_ipv6 && !state.tunnel_active {
                        Phase::Applying(ServiceCommand::Start)
                    } else if state.tunnel_active {
                        Phase::ProbingV6
                    } else {
                        Phase::Sleeping
                    }
                } else {
                    Phase::Sleeping
                }
            },
            (Phase::ProbingV6, Event::Probed(Family::V6, answered)) => {
                if answered {
                    Phase::Sleeping
                } else {
                    Phase::ProbingV4
                }
            },
            (Phase::ProbingV4, Event::Probed(Family::V4, answered)) => {
                if answered {
                    Phase::Applying(ServiceCommand::Restart)
                } else {
                    Phase::Sleeping
                }
            },
            (Phase::Applying(_), Event::Applied(_)) => Phase::Sleeping,
            (Phase::Sleeping, Event::Woke) => Phase::Observing,
            (phase, _) => phase,
        };
        self.phase = next;
        self.pending()
    }
}

/// An iteration carries out exactly the action that the policy gives for
/// the observed state and the probes' answers: it ends up waiting for the
/// service manager with that action's operation, or, for `NoOp`, asleep.
pub proof fn lemma_iteration_follows_policy(state: ObservedState, reach: ReachabilityState)
    ensures
        settled_phase(state, reach) == phase_for(policy(state, reach)),
{
}

/// Probes are made only when the decision hangs on them: the IPv6 probe
/// only for a tunnel in use, the IPv4 probe only after the IPv6 probe has
/// failed.
pub proof fn lemma_probes_only_when_needed(state: ObservedState, reach: ReachabilityState)
    ensures
        next_phase(Phase::Observing, Event::Observed(state)) == Phase::ProbingV6
            <==> state.tunnel_in_use(),
        next_phase(
            next_phase(Phase::Observing, Event::Observed(state)),
            Event::Probed(Family::V6, reach.ipv6_reachable),
        ) == Phase::ProbingV4 <==> state.tunnel_in_use() && !reach.ipv6_reachable,
{
}

/// An iteration whose action is `NoOp` never asks for the service manager:
/// none of the requests made between the observation and the sleep is an
/// `Apply`.
pub proof fn lemma_noop_never_calls_service_manager(
    state: ObservedState,
    reach: ReachabilityState,
    interval_secs: u64,
)
    requires
        policy(state, reach) == Action::NoOp,
    ensures
        ({
            let observed = next_phase(Phase::Observing, Event::Observed(state));
            let probed_v6 = next_phase(observed, Event::Probed(Family::V6, reach.ipv6_reachable));
            let probed_v4 = next_phase(probed_v6, Event::Probed(Family::V4, reach.ipv4_reachable));
            &&& !(request_of(observed, interval_secs) is Apply)
            &&& !(request_of(probed_v6, interval_secs) is Apply)
            &&& !(request_of(probed_v4, interval_secs) is Apply)
            &&& request_of(probed_v4, interval_secs) == Request::Sleep(interval_secs)
        }),
{
}

/// The service manager is asked for an operation only in answer to a
/// decision: a request to apply follows either an observation, with the
/// operation to stop or to start, or a successful IPv4 probe, with the
/// operation to restart.
pub proof fn lemma_apply_follows_decision(phase: Phase, event: Event, command: ServiceCommand)
    requires
        next_phase(phase, event) == Phase::Applying(command),
        phase != Phase::Applying(command),
    ensures
        match command {
            ServiceCommand::Stop => {
                &&& phase == Phase::Observing
                &&& event matches Event::Observed(state)
                &&& state.tunnel_unneeded()
            },
            ServiceCommand::Start => {
                &&& phase == Phase::Observing
                &&& event matches Event::Observed(state)
                &&& state.tunnel_missing()
            },
            ServiceCommand::Restart => {
                &&& phase == Phase::ProbingV4
                &&& event == Event::Probed(Family::V4, true)
            },
        },
{
}

/// An iteration runs in order: observation, then the probes, then the
/// service manager, then sleep. Every event that answers the pending
/// request moves the loop on to a later stage, none moves it back, and the
/// only way to a new observation is to wake from sleep.
pub proof fn lemma_iteration_runs_in_order(phase: Phase, event: Event)
    ensures
        next_phase(phase, event) != phase <==> answers(phase, event),
        answers(phase, event) && phase != Phase::Sleeping ==> stage(next_phase(phase, event))
            > stage(phase),
        next_phase(phase, event) == Phase::Observing ==> phase == Phase::Observing || (phase
            == Phase::Sleeping && event == Event::Woke),
{
}

/// Once the service manager has been asked, the loop goes to sleep however
/// the call ended, and after the sleep it observes anew.
pub proof fn lemma_failure_never_stops_the_loop(command: ServiceCommand, ended: Completion)
    ensures
        next_phase(Phase::Applying(command), Event::Applied(ended)) == Phase::Sleeping,
        next_phase(Phase::Sleeping, Event::Woke) == Phase::Observing,
{
}

} // verus!
