//! The decision rule: from one snapshot of the uplink and the tunnel to the
//! action to take on the tunnel's service unit.

use vstd::prelude::*;
use crate::observer::NetworkFacts;

verus! {

/// What one iteration does to the tunnel's service unit.
#[derive(Clone, Copy, Debug, PartialEq, Eq, Structural)]
pub enum Action {
    /// Leave the unit as it is.
    NoOp,
    /// Bring the tunnel up.
    Start,
    /// Take the tunnel down.
    Stop,
    /// Take the tunnel down and bring it up again.
    Restart,
}

/// The facts sampled at the start of an iteration.
#[derive(Clone, Copy, Debug, PartialEq, Eq, Structural)]
pub struct ObservedState {
    /// Some monitored interface has an IPv4 address.
    pub has_ipv4: bool,
    /// Some monitored interface has a public IPv6 address.
    pub has_public_ipv6: bool,
    /// The tunnel's service unit is running.
    pub tunnel_active: bool,
}

/// The outcome of the two reachability probes.
#[derive(Clone, Copy, Debug, PartialEq, Eq, Structural)]
pub struct ReachabilityState {
    /// The IPv4 anchor answered.
    pub ipv4_reachable: bool,
    /// The IPv6 anchor answered.
    pub ipv6_reachable: bool,
}

impl ObservedState {
    /// The tunnel runs although the uplink has public IPv6 of its own, or
    /// although there is no IPv4 uplink to carry it.
    pub open spec fn tunnel_unneeded(self) -> bool {
        self.tunnel_active && (self.has_public_ipv6 || !self.has_ipv4)
    }

    /// The uplink has IPv4 but no public IPv6, and the tunnel is down.
    pub open spec fn tunnel_missing(self) -> bool {
        self.has_ipv4 && !self.has_public_ipv6 && !self.tunnel_active
    }

    /// The tunnel is up and needed; whether it still carries traffic is for
    /// the probes to say.
    pub open spec fn tunnel_in_use(self) -> bool {
        self.has_ipv4 && !self.has_public_ipv6 && self.tunnel_active
    }

    /// The state with the same uplink once the service manager has carried
    /// out `action`: the tunnel runs after a start or a restart, is down
    /// after a stop, and is as before after `NoOp`.
    pub open spec fn after(self, action: Action) -> ObservedState {
        ObservedState {
            has_ipv4: self.has_ipv4,
            has_public_ipv6: self.has_public_ipv6,
            tunnel_active: match action {
                Action::NoOp => self.tunnel_active,
                Action::Start => true,
                Action::Stop => false,
                Action::Restart => true,
            },
        }
    }

    /// The snapshot made of the uplink's facts and the tunnel's state.
    pub fn new(facts: NetworkFacts, tunnel_active: bool) -> (state: ObservedState)
        ensures
            state.has_ipv4 == facts.has_ipv4,
            state.has_public_ipv6 == facts.has_public_ipv6,
            state.tunnel_active == tunnel_active,
    {
        ObservedState {
            has_ipv4: facts.has_ipv4,
            has_public_ipv6: facts.has_public_ipv6,
            tunnel_active,
        }
    }

    /// The snapshot to expect next if the uplink stays as it is and the
    /// service manager carries out `action`.
    pub fn once_applied(self, action: Action) -> (state: ObservedState)
        ensures
            state == self.after(action),
    {
        let tunnel_active = match action {
            Action::NoOp => self.tunnel_active,
            Action::Start => true,
            Action::Stop => false,
            Action::Restart => true,
        };
        ObservedState {
            has_ipv4: self.has_ipv4,
            has_public_ipv6: self.has_public_ipv6,
            tunnel_active,
        }
    }
}

impl ReachabilityState {
    /// IPv4 gets through but IPv6 does not: the tunnel's IPv6 path has died
    /// while the uplink itself still works.
    pub open spec fn ipv6_path_dead(self) -> bool {
        !self.ipv6_reachable && self.ipv4_reachable
    }
}

/// The action that a snapshot calls for.
///
/// Stopping comes first: a tunnel that is no longer needed is taken down
/// whatever else holds. A missing tunnel is started. A tunnel in use is
/// restarted only when the probes show its IPv6 path dead. Everything else,
/// total loss of the uplink included, calls for nothing.
pub open spec fn policy(state: ObservedState, reach: ReachabilityState) -> Action {
    if state.tunnel_unneeded() {
        Action::Stop
    } else if state.tunnel_missing() {
        Action::Start
    } else if state.tunnel_in_use() && reach.ipv6_path_dead() {
        Action::Restart
    } else {
        Action::NoOp
    }
}

/// Decides the action for one iteration.
pub fn decide(state: ObservedState, reach: ReachabilityState) -> (action: Action)
    ensures
        action == policy(state, reach),
{
    if state.tunnel_active && (state.has_public_ipv6 || !state.has_ipv4) {
        Action::Stop
    } else if state.has_ipv4 {
        if !state.has_public_ipv6 && !state.tunnel_active {
            Action::Start
        } else if state.tunnel_active && !reach.ipv6_reachable && reach.ipv4_reachable {
            Action::Restart
        } else {
            Action::NoOp
        }
    } else {
        Action::NoOp
    }
}

/// The actions of consecutive iterations that start from `state`, when the
/// uplink stays as it is, every action is carried out, and the probes of
/// the i-th iteration would answer as `probes[i]` says.
pub open spec fn actions_from(state: ObservedState, probes: Seq<ReachabilityState>) -> Seq<Action>
    decreases probes.len(),
{
    if probes.len() == 0 {
        Seq::empty()
    } else {
        let action = policy(state, probes[0]);
        seq![action] + actions_from(state.after(action), probes.drop_first())
    }
}

/// Each action is taken on exactly the snapshots that call for it.
pub proof fn lemma_policy_by_action(state: ObservedState, reach: ReachabilityState)
    ensures
        policy(state, reach) == Action::Stop <==> state.tunnel_unneeded(),
        policy(state, reach) == Action::Start <==> state.tunnel_missing(),
        policy(state, reach) == Action::Restart <==> state.tunnel_in_use()
            && reach.ipv6_path_dead(),
        policy(state, reach) == Action::NoOp <==> !state.tunnel_unneeded()
            && !state.tunnel_missing() && !(state.tunnel_in_use() && reach.ipv6_path_dead()),
{
}

/// The probes bear on the decision only for a tunnel in use, and then only
/// through whether they show the tunnel's IPv6 path dead.
pub proof fn lemma_probes_matter_only_in_use(
    state: ObservedState,
    one: ReachabilityState,
    other: ReachabilityState,
)
    requires
        !state.tunnel_in_use() || one.ipv6_path_dead() == other.ipv6_path_dead(),
    ensures
        policy(state, one) == policy(state, other),
{
}

/// With no uplink at all and the tunnel down, nothing is done.
pub proof fn lemma_total_loss_is_left_alone(state: ObservedState, reach: ReachabilityState)
    requires
        !state.has_ipv4,
        !state.tunnel_active,
    ensures
        policy(state, reach) == Action::NoOp,
{
}

/// Once an action has been carried out, the same uplink calls for nothing
/// more, whatever that action was and whatever the probes said before.
///
/// Left out is the one case in which the policy asks again by design: a
/// tunnel in use whose IPv6 path the next probes still show dead.
pub proof fn lemma_settled_after_one_action(
    state: ObservedState,
    first: ReachabilityState,
    next: ReachabilityState,
)
    requires
        !(state.has_ipv4 && !state.has_public_ipv6 && next.ipv6_path_dead()),
    ensures
        policy(state.after(policy(state, first)), next) == Action::NoOp,
{
}

/// No flapping: while the uplink stays as it is, only the first iteration
/// can act; every later one does nothing.
///
/// Left out are the runs in which a later iteration finds the tunnel in use
/// and its IPv6 path dead, which the policy answers with a restart each time.
pub proof fn lemma_no_flapping(state: ObservedState, probes: Seq<ReachabilityState>)
    requires
        forall|i: int|
            1 <= i < probes.len() ==> !(state.has_ipv4 && !state.has_public_ipv6
                && (#[trigger] probes[i]).ipv6_path_dead()),
    ensures
        actions_from(state, probes).len() == probes.len(),
        probes.len() > 0 ==> actions_from(state, probes)[0] == policy(state, probes[0]),
        forall|i: int| 1 <= i < probes.len() ==> actions_from(state, probes)[i] == Action::NoOp,
    decreases probes.len(),
{
    if probes.len() > 0 {
        let action = policy(state, probes[0]);
        let rest = probes.drop_first();
        let later = state.after(action);
        assert forall|i: int| 1 <= i < rest.len() implies !(later.has_ipv4
            && !later.has_public_ipv6 && (#[trigger] rest[i]).ipv6_path_dead()) by {
            assert(rest[i] == probes[i + 1]);
        }
        lemma_no_flapping(later, rest);
        assert forall|i: int| 1 <= i < probes.len() implies actions_from(state, probes)[i]
            == Action::NoOp by {
            if i == 1 {
                lemma_settled_after_one_action(state, probes[0], probes[1]);
            } else {
                assert(1 <= i - 1 < rest.len());
            }
        }
    }
}

} // verus!
