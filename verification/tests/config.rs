use rpautovpn::config::{Config, ConfigError, DEFAULT_INTERVAL_SECS};

fn tokens(list: &[&str]) -> Vec<String> {
    list.iter().map(|t| t.to_string()).collect()
}

#[test]
fn valid_values_make_a_configuration() {
    let config = Config::new(tokens(&["eth", "wlan"]), "wg1".to_string(), 30).unwrap();
    assert_eq!(config.filter.tokens, tokens(&["eth", "wlan"]));
    assert_eq!(config.tunnel, "wg1");
    assert_eq!(config.interval_secs, 30);
    assert_eq!(config.service_name(), "wg-quick@wg1.service");
}

#[test]
fn an_empty_token_list_is_refused() {
    let refused = Config::new(tokens(&[]), "wg0".to_string(), 10);
    assert_eq!(refused.err(), Some(ConfigError::NoInterfaces));
}

#[test]
fn an_empty_token_is_refused() {
    let refused = Config::new(tokens(&["eth", "", "wlan"]), "wg0".to_string(), 10);
    assert_eq!(refused.err(), Some(ConfigError::EmptyInterfaceToken));
    let refused = Config::new(tokens(&[""]), "wg0".to_string(), 10);
    assert_eq!(refused.err(), Some(ConfigError::EmptyInterfaceToken));
    let refused = Config::new(tokens(&["eth", "wlan", ""]), "wg0".to_string(), 10);
    assert_eq!(refused.err(), Some(ConfigError::EmptyInterfaceToken));
}

#[test]
fn an_empty_tunnel_name_is_refused() {
    let refused = Config::new(tokens(&["eth"]), String::new(), 10);
    assert_eq!(refused.err(), Some(ConfigError::EmptyTunnelName));
}

#[test]
fn the_first_fault_in_order_is_reported() {
    let refused = Config::new(tokens(&[]), String::new(), 10);
    assert_eq!(refused.err(), Some(ConfigError::NoInterfaces));
    let refused = Config::new(tokens(&["eth", ""]), String::new(), 10);
    assert_eq!(refused.err(), Some(ConfigError::EmptyInterfaceToken));
}

#[test]
fn any_interval_is_accepted() {
    assert!(Config::new(tokens(&["eth"]), "wg0".to_string(), 0).is_ok());
    assert!(Config::new(tokens(&["eth"]), "wg0".to_string(), u64::MAX).is_ok());
}

#[test]
fn the_standard_configuration_is_the_documented_one() {
    let config = Config::standard();
    assert_eq!(config.filter.tokens, tokens(&["eth", "eno", "wlan"]));
    assert_eq!(config.tunnel, "wg0");
    assert_eq!(config.interval_secs, 10);
    assert_eq!(DEFAULT_INTERVAL_SECS, 10);
    assert_eq!(config.service_name(), "wg-quick@wg0.service");
}

#[test]
fn the_standard_configuration_is_valid() {
    let standard = Config::standard();
    let validated = Config::new(
        standard.filter.tokens.clone(),
        standard.tunnel.clone(),
        standard.interval_secs,
    );
    assert!(validated.is_ok());
}

#[test]
fn every_refusal_has_its_words() {
    assert_eq!(ConfigError::NoInterfaces.describe(), "no interface to monitor");
    assert_eq!(ConfigError::EmptyInterfaceToken.describe(), "empty interface token");
    assert_eq!(ConfigError::EmptyTunnelName.describe(), "empty tunnel interface name");
}
