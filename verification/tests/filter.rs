use rpautovpn::filter::{starts_with, InterfaceFilter};

fn filter_of(tokens: &[&str]) -> InterfaceFilter {
    InterfaceFilter::new(tokens.iter().map(|t| t.to_string()).collect())
}

#[test]
fn eth0_matches_token_eth() {
    assert!(starts_with("eth0", "eth"));
    assert!(filter_of(&["eth"]).matches("eth0"));
}

#[test]
fn weth0_does_not_match_token_eth() {
    assert!(!starts_with("weth0", "eth"));
    assert!(!filter_of(&["eth"]).matches("weth0"));
}

#[test]
fn a_token_matches_the_interface_of_its_own_name() {
    assert!(starts_with("eth0", "eth0"));
    assert!(filter_of(&["wlan0"]).matches("wlan0"));
}

#[test]
fn a_token_longer_than_the_name_does_not_match() {
    assert!(!starts_with("eth", "eth0"));
    assert!(!starts_with("", "eth"));
    assert!(!filter_of(&["eth0"]).matches("eth"));
}

#[test]
fn a_token_inside_or_at_the_end_of_the_name_does_not_match() {
    assert!(!starts_with("veth12", "eth"));
    assert!(!starts_with("my-eth", "eth"));
    assert!(!starts_with("eht0", "eth"));
    assert!(!starts_with("Eth0", "eth"));
}

#[test]
fn the_empty_token_starts_every_name() {
    assert!(starts_with("eth0", ""));
    assert!(starts_with("", ""));
    assert!(filter_of(&[""]).matches("anything"));
}

#[test]
fn any_one_token_is_enough() {
    let filter = filter_of(&["eth", "eno", "wlan"]);
    assert!(filter.matches("eth0"));
    assert!(filter.matches("eno1"));
    assert!(filter.matches("wlan0"));
    assert!(filter.matches("wlan"));
    assert!(!filter.matches("lo"));
    assert!(!filter.matches("wg0"));
    assert!(!filter.matches("en0"));
    assert!(!filter.matches("wla"));
}

#[test]
fn a_filter_without_tokens_matches_nothing() {
    let filter = filter_of(&[]);
    assert!(!filter.matches("eth0"));
    assert!(!filter.matches(""));
}

#[test]
fn names_are_compared_character_by_character() {
    assert!(starts_with("bärnet0", "bär"));
    assert!(!starts_with("barnet0", "bär"));
    assert!(!starts_with("bärnet0", "bar"));
    assert!(starts_with("日本0", "日"));
    assert!(!starts_with("日本0", "本"));
}

#[test]
fn new_keeps_the_tokens_in_order() {
    let filter = filter_of(&["eth", "wlan"]);
    assert_eq!(filter.tokens, vec!["eth".to_string(), "wlan".to_string()]);
}
