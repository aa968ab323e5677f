use rpautovpn::address::{
    Address, Ipv6Address, DOCUMENTATION_FIRST, DOCUMENTATION_LAST, GLOBAL_UNICAST_FIRST,
    GLOBAL_UNICAST_LAST, LINK_LOCAL_FIRST, LINK_LOCAL_LAST, UNIQUE_LOCAL_FIRST, UNIQUE_LOCAL_LAST,
};

fn v6(segments: [u16; 8]) -> Ipv6Address {
    Ipv6Address::from_segments(segments)
}

#[test]
fn link_local_address_is_not_public() {
    let a = v6([0xfe80, 0, 0, 0, 0, 0, 0, 1]);
    assert!(!a.is_public());
    assert!(a.is_link_local());
    assert!(!a.is_unique_local());
}

#[test]
fn unique_local_address_is_not_public() {
    let a = v6([0xfd00, 0, 0, 0, 0, 0, 0, 1]);
    assert!(!a.is_public());
    assert!(a.is_unique_local());
    assert!(!a.is_link_local());
}

#[test]
fn global_unicast_address_is_public() {
    let a = v6([0x2001, 0x4860, 0x4860, 0, 0, 0, 0, 0x8844]);
    assert!(a.is_public());
    assert!(!a.is_link_local());
    assert!(!a.is_unique_local());
}

#[test]
fn leading_digit_two_outside_global_unicast_is_not_public() {
    assert!(!v6([0x0002, 0, 0, 0, 0, 0, 0, 1]).is_public());
    assert!(!v6([0x0020, 0, 0, 0, 0, 0, 0, 1]).is_public());
    assert!(!v6([0x0200, 0, 0, 0, 0, 0, 0, 1]).is_public());
    assert!(!v6([0x02ff, 0xffff, 0, 0, 0, 0, 0, 1]).is_public());
}

#[test]
fn documentation_address_is_not_public() {
    assert!(!v6([0x2001, 0x0db8, 0, 0, 0, 0, 0, 1]).is_public());
    assert!(!Ipv6Address::new(DOCUMENTATION_FIRST).is_public());
    assert!(!Ipv6Address::new(DOCUMENTATION_LAST).is_public());
    assert!(Ipv6Address::new(DOCUMENTATION_FIRST - 1).is_public());
    assert!(Ipv6Address::new(DOCUMENTATION_LAST + 1).is_public());
}

#[test]
fn global_unicast_block_has_sharp_edges() {
    assert!(!Ipv6Address::new(GLOBAL_UNICAST_FIRST - 1).is_public());
    assert!(Ipv6Address::new(GLOBAL_UNICAST_FIRST).is_public());
    assert!(Ipv6Address::new(GLOBAL_UNICAST_LAST).is_public());
    assert!(!Ipv6Address::new(GLOBAL_UNICAST_LAST + 1).is_public());
    assert!(v6([0x3fff, 0xffff, 0xffff, 0xffff, 0xffff, 0xffff, 0xffff, 0xffff]).is_public());
    assert!(!v6([0x4000, 0, 0, 0, 0, 0, 0, 0]).is_public());
}

#[test]
fn link_local_block_has_sharp_edges() {
    assert!(!Ipv6Address::new(LINK_LOCAL_FIRST - 1).is_link_local());
    assert!(Ipv6Address::new(LINK_LOCAL_FIRST).is_link_local());
    assert!(Ipv6Address::new(LINK_LOCAL_LAST).is_link_local());
    assert!(!Ipv6Address::new(LINK_LOCAL_LAST + 1).is_link_local());
    assert!(v6([0xfebf, 0xffff, 0, 0, 0, 0, 0, 0]).is_link_local());
    assert!(!v6([0xfec0, 0, 0, 0, 0, 0, 0, 1]).is_link_local());
}

#[test]
fn unique_local_block_has_sharp_edges() {
    assert!(!Ipv6Address::new(UNIQUE_LOCAL_FIRST - 1).is_unique_local());
    assert!(Ipv6Address::new(UNIQUE_LOCAL_FIRST).is_unique_local());
    assert!(Ipv6Address::new(UNIQUE_LOCAL_LAST).is_unique_local());
    assert!(!Ipv6Address::new(UNIQUE_LOCAL_LAST + 1).is_unique_local());
    assert!(v6([0xfc00, 0, 0, 0, 0, 0, 0, 1]).is_unique_local());
}

#[test]
fn special_addresses_are_not_public() {
    assert!(!Ipv6Address::new(0).is_public());
    assert!(!Ipv6Address::new(1).is_public());
    assert!(!v6([0xff02, 0, 0, 0, 0, 0, 0, 1]).is_public());
    assert!(!Ipv6Address::new(u128::MAX).is_public());
    assert!(!v6([0, 0, 0, 0, 0, 0xffff, 0x0808, 0x0404]).is_public());
}

#[test]
fn segments_are_joined_most_significant_first() {
    let a = v6([0x2001, 0x4860, 0x4860, 0, 0, 0, 0, 0x8844]);
    assert_eq!(a.bits, 0x2001_4860_4860_0000_0000_0000_0000_8844);
    assert_eq!(a, Ipv6Address::new(0x2001_4860_4860_0000_0000_0000_0000_8844));
    let b = v6([1, 2, 3, 4, 5, 6, 7, 8]);
    assert_eq!(b.bits, 0x0001_0002_0003_0004_0005_0006_0007_0008);
    assert_eq!(v6([0xffff; 8]).bits, u128::MAX);
    assert_eq!(v6([0; 8]).bits, 0);
}

#[test]
fn addresses_are_told_apart_by_family() {
    assert!(Address::V4(0x0a00_0001).is_ipv4());
    assert!(!Address::V4(0x0a00_0001).is_public_ipv6());
    let public = Address::V6(v6([0x2a00, 0x1450, 0, 0, 0, 0, 0, 1]));
    assert!(!public.is_ipv4());
    assert!(public.is_public_ipv6());
    let local = Address::V6(v6([0xfe80, 0, 0, 0, 0, 0, 0, 1]));
    assert!(!local.is_ipv4());
    assert!(!local.is_public_ipv6());
}

#[test]
fn ipv4_value_that_looks_public_is_still_ipv4() {
    assert!(!Address::V4(0x2001_4860).is_public_ipv6());
    assert!(Address::V4(0).is_ipv4());
    assert!(Address::V4(u32::MAX).is_ipv4());
}
