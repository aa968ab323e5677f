//! Addresses bound to network interfaces, and the classification of IPv6
//! addresses by the block they lie in.

use vstd::prelude::*;

verus! {

/// First address of the global unicast block, `2000::/3`.
pub const GLOBAL_UNICAST_FIRST: u128 = 0x2000_0000_0000_0000_0000_0000_0000_0000;

/// Last address of the global unicast block, `2000::/3`.
pub const GLOBAL_UNICAST_LAST: u128 = 0x3fff_ffff_ffff_ffff_ffff_ffff_ffff_ffff;

/// First address of the documentation block, `2001:db8::/32`.
pub const DOCUMENTATION_FIRST: u128 = 0x2001_0db8_0000_0000_0000_0000_0000_0000;

/// Last address of the documentation block, `2001:db8::/32`.
pub const DOCUMENTATION_LAST: u128 = 0x2001_0db8_ffff_ffff_ffff_ffff_ffff_ffff;

/// First address of the unique-local block, `fc00::/7`.
pub const UNIQUE_LOCAL_FIRST: u128 = 0xfc00_0000_0000_0000_0000_0000_0000_0000;

/// Last address of the unique-local block, `fc00::/7`.
pub const UNIQUE_LOCAL_LAST: u128 = 0xfdff_ffff_ffff_ffff_ffff_ffff_ffff_ffff;

/// First address of the link-local block, `fe80::/10`.
pub const LINK_LOCAL_FIRST: u128 = 0xfe80_0000_0000_0000_0000_0000_0000_0000;

/// Last address of the link-local block, `fe80::/10`.
pub const LINK_LOCAL_LAST: u128 = 0xfebf_ffff_ffff_ffff_ffff_ffff_ffff_ffff;

/// An IPv6 address as its 128-bit value: the first segment of the textual
/// form is the most significant sixteen bits.
#[derive(Clone, Copy, Debug, PartialEq, Eq, Structural)]
pub struct Ipv6Address {
    /// The sixteen bytes of the address read as one number, the first byte
    /// most significant.
    pub bits: u128,
}

/// An address bound to an interface, tagged by family, with its raw value.
#[derive(Clone, Copy, Debug, PartialEq, Eq, Structural)]
pub enum Address {
    /// An IPv4 address as its 32-bit value.
    V4(u32),
    /// An IPv6 address.
    V6(Ipv6Address),
}

/// The value of an address written as eight segments, most significant first.
pub open spec fn segments_value(segments: Seq<u16>) -> int
    recommends
        segments.len() == 8,
{
    segments[0] * 0x1_0000_0000_0000_0000_0000_0000_0000
        + segments[1] * 0x1_0000_0000_0000_0000_0000_0000
        + segments[2] * 0x1_0000_0000_0000_0000_0000
        + segments[3] * 0x1_0000_0000_0000_0000
        + segments[4] * 0x1_0000_0000_0000
        + segments[5] * 0x1_0000_0000
        + segments[6] * 0x1_0000
        + segments[7]
}

impl Ipv6Address {
    /// The address lies in `2000::/3`.
    pub open spec fn in_global_unicast(self) -> bool {
        GLOBAL_UNICAST_FIRST <= self.bits <= GLOBAL_UNICAST_LAST
    }

    /// The address lies in `2001:db8::/32`, set aside for documentation.
    pub open spec fn in_documentation(self) -> bool {
        DOCUMENTATION_FIRST <= self.bits <= DOCUMENTATION_LAST
    }

    /// The address lies in `fc00::/7`.
    pub open spec fn in_unique_local(self) -> bool {
        UNIQUE_LOCAL_FIRST <= self.bits <= UNIQUE_LOCAL_LAST
    }

    /// The address lies in `fe80::/10`.
    pub open spec fn in_link_local(self) -> bool {
        LINK_LOCAL_FIRST <= self.bits <= LINK_LOCAL_LAST
    }

    /// The address is routable on the general internet: it lies in the global
    /// unicast block and not in the part of it set aside for documentation.
    pub open spec fn public(self) -> bool {
        self.in_global_unicast() && !self.in_documentation()
    }

    /// The address with the given 128-bit value.
    pub fn new(bits: u128) -> (address: Ipv6Address)
        ensures
            address.bits == bits,
    {
        Ipv6Address { bits }
    }

    /// The address written as eight segments, as in `2001:db8:0:0:0:0:0:1`.
    pub fn from_segments(segments: [u16; 8]) -> (address: Ipv6Address)
        ensures
            address.bits == segments_value(segments@),
    {
        let bits: u128 = (segments[0] as u128) * 0x1_0000_0000_0000_0000_0000_0000_0000
            + (segments[1] as u128) * 0x1_0000_0000_0000_0000_0000_0000
            + (segments[2] as u128) * 0x1_0000_0000_0000_0000_0000
            + (segments[3] as u128) * 0x1_0000_0000_0000_0000
            + (segments[4] as u128) * 0x1_0000_0000_0000
            + (segments[5] as u128) * 0x1_0000_0000
            + (segments[6] as u128) * 0x1_0000
            + (segments[7] as u128);
        Ipv6Address { bits }
    }

    /// Whether the address is link-local.
    #[verifier::when_used_as_spec(in_link_local)]
    pub fn is_link_local(self) -> (yes: bool)
        ensures
            yes == self.in_link_local(),
    {
        LINK_LOCAL_FIRST <= self.bits && self.bits <= LINK_LOCAL_LAST
    }

    /// Whether the address is unique-local.
    #[verifier::when_used_as_spec(in_unique_local)]
    pub fn is_unique_local(self) -> (yes: bool)
        ensures
            yes == self.in_unique_local(),
    {
        UNIQUE_LOCAL_FIRST <= self.bits && self.bits <= UNIQUE_LOCAL_LAST
    }

    /// Whether the address is public.
    ///
    /// The answer goes by the block the address lies in, never by how its
    /// textual form begins: `2::1` and `200::1` start with the digit 2 and
    /// are not public.
    #[verifier::when_used_as_spec(public)]
    pub fn is_public(self) -> (yes: bool)
        ensures
            yes == self.public(),
    {
        let in_global_unicast = GLOBAL_UNICAST_FIRST <= self.bits && self.bits
            <= GLOBAL_UNICAST_LAST;
        let in_documentation = DOCUMENTATION_FIRST <= self.bits && self.bits
            <= DOCUMENTATION_LAST;
        in_global_unicast && !in_documentation
    }
}

impl Address {
    /// The address is an IPv4 address.
    pub open spec fn ipv4(self) -> bool {
        self is V4
    }

    /// The address is a public IPv6 address.
    pub open spec fn public_ipv6(self) -> bool {
        self matches Address::V6(a) && a.public()
    }

    /// Whether the address is an IPv4 address.
    #[verifier::when_used_as_spec(ipv4)]
    pub fn is_ipv4(self) -> (yes: bool)
        ensures
            yes == self.ipv4(),
    {
        match self {
            Address::V4(_) => true,
            Address::V6(_) => false,
        }
    }

    /// Whether the address is a public IPv6 address.
    #[verifier::when_used_as_spec(public_ipv6)]
    pub fn is_public_ipv6(self) -> (yes: bool)
        ensures
            yes == self.public_ipv6(),
    {
        match self {
            Address::V4(_) => false,
            Address::V6(a) => a.is_public(),
        }
    }
}

/// A public address lies in none of the blocks that never leave the site or
/// the link, and none of the blocks outside global unicast: it is not
/// link-local, not unique-local, not multicast, not loopback and not
/// unspecified.
pub proof fn lemma_public_excludes_local_blocks(address: Ipv6Address)
    requires
        address.public(),
    ensures
        !address.in_link_local(),
        !address.in_unique_local(),
        !address.in_documentation(),
        address.bits < 0xff00_0000_0000_0000_0000_0000_0000_0000,
        address.bits != 1,
        address.bits != 0,
{
}

/// Membership of each block is decided by the leading bits alone: the first
/// three for global unicast, seven for unique-local, ten for link-local,
/// thirty-two for documentation.
pub proof fn lemma_blocks_are_prefixes(address: Ipv6Address)
    ensures
        address.in_global_unicast() <==> address.bits >> 125 == 0b001,
        address.in_unique_local() <==> address.bits >> 121 == 0b1111_110,
        address.in_link_local() <==> address.bits >> 118 == 0b1111_1110_10,
        address.in_documentation() <==> address.bits >> 96 == 0x2001_0db8,
{
    let b = address.bits;
    assert((GLOBAL_UNICAST_FIRST <= b <= GLOBAL_UNICAST_LAST) <==> b >> 125 == 0b001)
        by (bit_vector);
    assert((UNIQUE_LOCAL_FIRST <= b <= UNIQUE_LOCAL_LAST) <==> b >> 121 == 0b1111_110)
        by (bit_vector);
    assert((LINK_LOCAL_FIRST <= b <= LINK_LOCAL_LAST) <==> b >> 118 == 0b1111_1110_10)
        by (bit_vector);
    assert((DOCUMENTATION_FIRST <= b <= DOCUMENTATION_LAST) <==> b >> 96 == 0x2001_0db8)
        by (bit_vector);
}

} // verus!
