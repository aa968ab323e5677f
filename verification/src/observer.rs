//! What the monitored interfaces say about the uplink.

use vstd::prelude::*;
use crate::address::{Address, Ipv6Address};
use crate::filter::{selects, InterfaceFilter};

verus! {

/// A network interface as the operating system lists it: its name and the
/// addresses bound to it.
#[derive(Clone, Debug, PartialEq, Eq)]
pub struct Interface {
    pub name: String,
    pub addresses: Vec<Address>,
}

/// An interface as contracts speak of it.
pub struct InterfaceView {
    pub name: Seq<char>,
    pub addresses: Seq<Address>,
}

impl View for Interface {
    type V = InterfaceView;

    open spec fn view(&self) -> InterfaceView {
        InterfaceView { name: self.name@, addresses: self.addresses@ }
    }
}

impl DeepView for Interface {
    type V = InterfaceView;

    open spec fn deep_view(&self) -> InterfaceView {
        self@
    }
}

/// The two facts about the uplink that the decision rests on.
#[derive(Clone, Copy, Debug, PartialEq, Eq, Structural)]
pub struct NetworkFacts {
    /// Some monitored interface has an IPv4 address.
    pub has_ipv4: bool,
    /// Some monitored interface has a public IPv6 address.
    pub has_public_ipv6: bool,
}

/// A listing of the machine's interfaces together with the facts drawn
/// from it.
#[derive(Clone, Debug, PartialEq, Eq)]
pub struct Observation {
    pub interfaces: Vec<Interface>,
    pub facts: NetworkFacts,
}

impl InterfaceView {
    /// Some address of the interface is an IPv4 address.
    pub open spec fn has_ipv4(self) -> bool {
        exists|j: int| 0 <= j < self.addresses.len() && (#[trigger] self.addresses[j]).ipv4()
    }

    /// Some address of the interface is a public IPv6 address.
    pub open spec fn has_public_ipv6(self) -> bool {
        exists|j: int|
            0 <= j < self.addresses.len() && (#[trigger] self.addresses[j]).public_ipv6()
    }
}

impl Interface {
    /// Whether some address of the interface is an IPv4 address.
    pub fn any_ipv4(&self) -> (yes: bool)
        ensures
            yes == self@.has_ipv4(),
    {
        let mut j: usize = 0;
        while j < self.addresses.len()
            invariant
                j <= self.addresses.len(),
                forall|k: int| 0 <= k < j ==> !(#[trigger] self.addresses@[k]).ipv4(),
            decreases self.addresses.len() - j,
        {
            if self.addresses[j].is_ipv4() {
                assert(self@.addresses[j as int].ipv4());
                return true;
            }
            j += 1;
        }
        false
    }

    /// Whether some address of the interface is a public IPv6 address.
    pub fn any_public_ipv6(&self) -> (yes: bool)
        ensures
            yes == self@.has_public_ipv6(),
    {
        let mut j: usize = 0;
        while j < self.addresses.len()
            invariant
                j <= self.addresses.len(),
                forall|k: int| 0 <= k < j ==> !(#[trigger] self.addresses@[k]).public_ipv6(),
            decreases self.addresses.len() - j,
        {
            if self.addresses[j].is_public_ipv6() {
                assert(self@.addresses[j as int].public_ipv6());
                return true;
            }
            j += 1;
        }
        false
    }
}

/// Some interface that the tokens select has an IPv4 address.
pub open spec fn ipv4_present(tokens: Seq<Seq<char>>, interfaces: Seq<InterfaceView>) -> bool {
    exists|i: int|
        0 <= i < interfaces.len() && selects(tokens, (#[trigger] interfaces[i]).name)
            && interfaces[i].has_ipv4()
}

/// Some interface that the tokens select has a public IPv6 address.
pub open spec fn public_ipv6_present(
    tokens: Seq<Seq<char>>,
    interfaces: Seq<InterfaceView>,
) -> bool {
    exists|i: int|
        0 <= i < interfaces.len() && selects(tokens, (#[trigger] interfaces[i]).name)
            && interfaces[i].has_public_ipv6()
}

/// The facts that a listing of interfaces yields under the given tokens.
pub open spec fn facts_of(tokens: Seq<Seq<char>>, interfaces: Seq<InterfaceView>) -> NetworkFacts {
    NetworkFacts {
        has_ipv4: ipv4_present(tokens, interfaces),
        has_public_ipv6: public_ipv6_present(tokens, interfaces),
    }
}

/// Whether some monitored interface of the listing has an IPv4 address.
pub fn has_ipv4_addr(filter: &InterfaceFilter, interfaces: &Vec<Interface>) -> (yes: bool)
    ensures
        yes == ipv4_present(filter@, interfaces.deep_view()),
{
    let mut i: usize = 0;
    while i < interfaces.len()
        invariant
            i <= interfaces.len(),
            interfaces.deep_view().len() == interfaces.len(),
            forall|k: int|
                0 <= k < i ==> !(selects(filter@, (#[trigger] interfaces.deep_view()[k]).name)
                    && interfaces.deep_view()[k].has_ipv4()),
        decreases interfaces.len() - i,
    {
        assert(interfaces.deep_view()[i as int] == interfaces@[i as int]@);
        if filter.matches(interfaces[i].name.as_str()) && interfaces[i].any_ipv4() {
            return true;
        }
        i += 1;
    }
    false
}

/// Whether some monitored interface of the listing has a public IPv6
/// address.
pub fn has_public_ipv6_addr(filter: &InterfaceFilter, interfaces: &Vec<Interface>) -> (yes: bool)
    ensures
        yes == public_ipv6_present(filter@, interfaces.deep_view()),
{
    let mut i: usize = 0;
    while i < interfaces.len()
        invariant
            i <= interfaces.len(),
            interfaces.deep_view().len() == interfaces.len(),
            forall|k: int|
                0 <= k < i ==> !(selects(filter@, (#[trigger] interfaces.deep_view()[k]).name)
                    && interfaces.deep_view()[k].has_public_ipv6()),
        decreases interfaces.len() - i,
    {
        assert(interfaces.deep_view()[i as int] == interfaces@[i as int]@);
        if filter.matches(interfaces[i].name.as_str()) && interfaces[i].any_public_ipv6() {
            return true;
        }
        i += 1;
    }
    false
}

/// Draws the facts about the uplink from a listing of interfaces.
pub fn survey(filter: &InterfaceFilter, interfaces: &Vec<Interface>) -> (facts: NetworkFacts)
    ensures
        facts == facts_of(filter@, interfaces.deep_view()),
{
    NetworkFacts {
        has_ipv4: has_ipv4_addr(filter, interfaces),
        has_public_ipv6: has_public_ipv6_addr(filter, interfaces),
    }
}

/// Asks the operating system for its network interfaces, through
/// `pnet::datalink::interfaces`.
///
/// Nothing is claimed of the listing: it is whatever the machine holds at the
/// moment of the call, and it is empty when the system's enumeration fails.
#[verifier::external_body]
fn system_interfaces() -> (listing: Vec<Interface>) {
    pnet::datalink::interfaces()
        .into_iter()
        .map(|i| Interface {
            name: i.name,
            addresses: i.ips.iter().map(|ip| match ip {
                pnet::ipnetwork::IpNetwork::V4(n) => Address::V4(u32::from(n.ip())),
                pnet::ipnetwork::IpNetwork::V6(n) => Address::V6(
                    Ipv6Address::new(u128::from(n.ip())),
                ),
            }).collect(),
        })
        .collect()
}

/// Lists the machine's interfaces and draws the facts about the uplink from
/// that one listing.
///
/// The listing comes back with the facts, so that a caller can report what
/// the facts were drawn from. A filter without tokens finds nothing,
/// whatever the machine holds.
pub fn observe(filter: &InterfaceFilter) -> (seen: Observation)
    ensures
        seen.facts == facts_of(filter@, seen.interfaces.deep_view()),
        filter@.len() == 0 ==> !seen.facts.has_ipv4 && !seen.facts.has_public_ipv6,
{
    let interfaces = system_interfaces();
    let facts = survey(filter, &interfaces);
    proof {
        if filter@.len() == 0 {
            lemma_nothing_monitored_nothing_found(filter@, interfaces.deep_view());
        }
    }
    Observation { interfaces, facts }
}

/// Where nothing is monitored, nothing is found: an empty listing, as after
/// a failed enumeration, and a filter without tokens both yield no IPv4
/// and no public IPv6.
pub proof fn lemma_nothing_monitored_nothing_found(
    tokens: Seq<Seq<char>>,
    interfaces: Seq<InterfaceView>,
)
    requires
        interfaces.len() == 0 || tokens.len() == 0,
    ensures
        !ipv4_present(tokens, interfaces),
        !public_ipv6_present(tokens, interfaces),
{
}

/// Some element of `items` meets both `keep` and `has`.
spec fn some_kept_has<T>(items: Seq<T>, keep: spec_fn(T) -> bool, has: spec_fn(T) -> bool) -> bool {
    exists|i: int| 0 <= i < items.len() && keep(#[trigger] items[i]) && has(items[i])
}

/// Taking out the elements that do not meet `keep` neither adds nor loses
/// an element that meets both `keep` and `has`.
proof fn lemma_filter_keeps_witnesses<T>(
    items: Seq<T>,
    keep: spec_fn(T) -> bool,
    has: spec_fn(T) -> bool,
)
    ensures
        some_kept_has(items, keep, has) == some_kept_has(items.filter(keep), keep, has),
{
    let kept = items.filter(keep);
    if some_kept_has(items, keep, has) {
        let i = choose|i: int| 0 <= i < items.len() && keep(#[trigger] items[i]) && has(items[i]);
        items.lemma_filter_contains(keep, i);
        let k = choose|k: int| 0 <= k < kept.len() && kept[k] == items[i];
        assert(keep(kept[k]) && has(kept[k]));
    }
    if some_kept_has(kept, keep, has) {
        let k = choose|k: int| 0 <= k < kept.len() && keep(#[trigger] kept[k]) && has(kept[k]);
        items.lemma_filter_contains_rev(keep, kept[k]);
        let i = choose|i: int| 0 <= i < items.len() && items[i] == kept[k];
        assert(keep(items[i]) && has(items[i]));
    }
}

/// Only monitored interfaces count: the facts are those of the listing
/// with every interface that the tokens do not select taken out.
pub proof fn lemma_unselected_interfaces_do_not_count(
    tokens: Seq<Seq<char>>,
    interfaces: Seq<InterfaceView>,
)
    ensures
        facts_of(tokens, interfaces) == facts_of(
            tokens,
            interfaces.filter(|i: InterfaceView| selects(tokens, i.name)),
        ),
{
    let keep = |i: InterfaceView| selects(tokens, i.name);
    let kept = interfaces.filter(keep);
    let v4 = |i: InterfaceView| i.has_ipv4();
    let v6 = |i: InterfaceView| i.has_public_ipv6();
    lemma_filter_keeps_witnesses(interfaces, keep, v4);
    lemma_filter_keeps_witnesses(interfaces, keep, v6);
    assert(ipv4_present(tokens, interfaces) == some_kept_has(interfaces, keep, v4)) by {
        if ipv4_present(tokens, interfaces) {
            let i = choose|i: int|
                0 <= i < interfaces.len() && selects(tokens, (#[trigger] interfaces[i]).name)
                    && interfaces[i].has_ipv4();
            assert(keep(interfaces[i]) && v4(interfaces[i]));
        }
    }
    assert(ipv4_present(tokens, kept) == some_kept_has(kept, keep, v4)) by {
        if ipv4_present(tokens, kept) {
            let i = choose|i: int|
                0 <= i < kept.len() && selects(tokens, (#[trigger] kept[i]).name)
                    && kept[i].has_ipv4();
            assert(keep(kept[i]) && v4(kept[i]));
        }
    }
    assert(public_ipv6_present(tokens, interfaces) == some_kept_has(interfaces, keep, v6)) by {
        if public_ipv6_present(tokens, interfaces) {
            let i = choose|i: int|
                0 <= i < interfaces.len() && selects(tokens, (#[trigger] interfaces[i]).name)
                    && interfaces[i].has_public_ipv6();
            assert(keep(interfaces[i]) && v6(interfaces[i]));
        }
    }
    assert(public_ipv6_present(tokens, kept) == some_kept_has(kept, keep, v6)) by {
        if public_ipv6_present(tokens, kept) {
            let i = choose|i: int|
                0 <= i < kept.len() && selects(tokens, (#[trigger] kept[i]).name)
                    && kept[i].has_public_ipv6();
            assert(keep(kept[i]) && v6(kept[i]));
        }
    }
}

} // verus!
