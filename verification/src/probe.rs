//! Reachability probes: which anchor to send echo requests to, how many, how
//! long to wait, and how to read the outcome.

use vstd::prelude::*;
use crate::address::{Address, Ipv6Address};
use crate::completion::Completion;

verus! {

/// Number of echo requests sent in one probe.
pub const PROBE_COUNT: u32 = 4;

/// Upper bound, in seconds, on the wait for one probe.
pub const PROBE_DEADLINE_SECS: u64 = 15;

/// The IPv4 anchor, the public resolver at `8.8.4.4`.
pub const ANCHOR_V4: u32 = 0x0808_0404;

/// The IPv6 anchor, the public resolver at `2001:4860:4860::8844`.
pub const ANCHOR_V6: u128 = 0x2001_4860_4860_0000_0000_0000_0000_8844;

/// The address family that a probe tests.
#[derive(Clone, Copy, Debug, PartialEq, Eq, Structural)]
pub enum Family {
    V4,
    V6,
}

/// What to ask of the echo facility for one probe.
#[derive(Clone, Copy, Debug, PartialEq, Eq, Structural)]
pub struct ProbePlan {
    /// The anchor to send echo requests to.
    pub target: Address,
    /// How many requests to send.
    pub count: u32,
    /// After how many seconds to give the probe up.
    pub deadline_secs: u64,
}

/// The anchor of a family.
pub open spec fn anchor(family: Family) -> Address {
    match family {
        Family::V4 => Address::V4(ANCHOR_V4),
        Family::V6 => Address::V6(Ipv6Address { bits: ANCHOR_V6 }),
    }
}

/// The probe of a family: four echo requests to the family's anchor, given
/// up after the deadline.
pub fn probe_plan(family: Family) -> (plan: ProbePlan)
    ensures
        plan.target == anchor(family),
        plan.count == PROBE_COUNT,
        plan.deadline_secs == PROBE_DEADLINE_SECS,
{
    let target = match family {
        Family::V4 => Address::V4(ANCHOR_V4),
        Family::V6 => Address::V6(Ipv6Address { bits: ANCHOR_V6 }),
    };
    ProbePlan { target, count: PROBE_COUNT, deadline_secs: PROBE_DEADLINE_SECS }
}

/// Whether a probe found its anchor reachable. It did only if the echo
/// facility ran to its end and reported success: a probe that timed out or
/// could not be launched counts as a failure.
pub fn probe_reachable(outcome: Completion) -> (yes: bool)
    ensures
        yes == outcome.success(),
{
    outcome.succeeded()
}

/// Each anchor is of the family it stands for, and the IPv6 anchor is a
/// public address.
pub proof fn lemma_anchors_fit_their_family()
    ensures
        anchor(Family::V4).ipv4(),
        anchor(Family::V6).public_ipv6(),
{
}

} // verus!
