//! What the controller is started with, and the validation that refuses a
//! start on values that leave the policy undefined.

use vstd::prelude::*;
use vstd::string::*;
use crate::filter::InterfaceFilter;
use crate::service::{service_name, unit_name};

verus! {

/// Seconds between two iterations unless configured otherwise.
pub const DEFAULT_INTERVAL_SECS: u64 = 10;

/// Why a configuration is refused.
#[derive(Clone, Copy, Debug, PartialEq, Eq, Structural)]
pub enum ConfigError {
    /// No interface token was given: nothing would be monitored.
    NoInterfaces,
    /// An interface token is empty: it would select every interface.
    EmptyInterfaceToken,
    /// The tunnel's interface name is empty: there is no unit to manage.
    EmptyTunnelName,
}

/// The controller's configuration, fixed at startup.
#[derive(Clone, Debug)]
pub struct Config {
    /// The interfaces to monitor.
    pub filter: InterfaceFilter,
    /// The name of the tunnel's own interface.
    pub tunnel: String,
    /// Seconds to sleep between two iterations.
    pub interval_secs: u64,
}

/// Some token is the empty string.
pub open spec fn has_empty_token(tokens: Seq<Seq<char>>) -> bool {
    exists|i: int| 0 <= i < tokens.len() && (#[trigger] tokens[i]).len() == 0
}

/// The first reason to refuse the given values, if there is one.
pub open spec fn refusal(tokens: Seq<Seq<char>>, tunnel: Seq<char>) -> Option<ConfigError> {
    if tokens.len() == 0 {
        Some(ConfigError::NoInterfaces)
    } else if has_empty_token(tokens) {
        Some(ConfigError::EmptyInterfaceToken)
    } else if tunnel.len() == 0 {
        Some(ConfigError::EmptyTunnelName)
    } else {
        None
    }
}

impl Config {
    /// The configuration names at least one interface token, none of them
    /// empty, and a tunnel interface.
    pub open spec fn wf(&self) -> bool {
        refusal(self.filter@, self.tunnel@) is None
    }

    /// Validates the given values and makes a configuration of them.
    ///
    /// Refused are, in this order: an empty list of tokens, a list with an
    /// empty token in it, an empty tunnel name.
    pub fn new(tokens: Vec<String>, tunnel: String, interval_secs: u64) -> (made: Result<
        Config,
        ConfigError,
    >)
        ensures
            match made {
                Ok(config) => {
                    &&& refusal(tokens.deep_view(), tunnel@) is None
                    &&& config.filter.tokens == tokens
                    &&& config.tunnel == tunnel
                    &&& config.interval_secs == interval_secs
                    &&& config.wf()
                },
                Err(error) => refusal(tokens.deep_view(), tunnel@) == Some(error),
            },
    {
        if tokens.len() == 0 {
            return Err(ConfigError::NoInterfaces);
        }
        let mut i: usize = 0;
        while i < tokens.len()
            invariant
                i <= tokens.len(),
                tokens.deep_view().len() == tokens.len(),
                forall|k: int| 0 <= k < i ==> (#[trigger] tokens.deep_view()[k]).len() != 0,
            decreases tokens.len() - i,
        {
            assert(tokens.deep_view()[i as int] == tokens@[i as int]@);
            if tokens[i].as_str().is_empty() {
                return Err(ConfigError::EmptyInterfaceToken);
            }
            i += 1;
        }
        if tunnel.as_str().is_empty() {
            return Err(ConfigError::EmptyTunnelName);
        }
        Ok(Config { filter: InterfaceFilter { tokens }, tunnel, interval_secs })
    }

    /// The configuration for a host whose uplink is wired or wireless
    /// Ethernet and whose tunnel is `wg0`: the tokens `eth`, `eno` and
    /// `wlan`, polled every ten seconds.
    pub fn standard() -> (config: Config)
        ensures
            config.filter@ == seq!["eth"@, "eno"@, "wlan"@],
            config.tunnel@ == "wg0"@,
            config.interval_secs == DEFAULT_INTERVAL_SECS,
            config.wf(),
    {
        proof {
            reveal_strlit("eth");
            reveal_strlit("eno");
            reveal_strlit("wlan");
            reveal_strlit("wg0");
        }
        let mut tokens: Vec<String> = Vec::new();
        tokens.push(String::from_str("eth"));
        tokens.push(String::from_str("eno"));
        tokens.push(String::from_str("wlan"));
        Config {
            filter: InterfaceFilter { tokens },
            tunnel: String::from_str("wg0"),
            interval_secs: DEFAULT_INTERVAL_SECS,
        }
    }

    /// The name of the unit that runs the tunnel.
    pub fn service_name(&self) -> (name: String)
        ensures
            name@ == unit_name(self.tunnel@),
    {
        service_name(self.tunnel.as_str())
    }
}

impl ConfigError {
    /// The reason in words, for the log.
    pub fn describe(self) -> (words: &'static str)
        ensures
            words@ == match self {
                ConfigError::NoInterfaces => "no interface to monitor"@,
                ConfigError::EmptyInterfaceToken => "empty interface token"@,
                ConfigError::EmptyTunnelName => "empty tunnel interface name"@,
            },
    {
        match self {
            ConfigError::NoInterfaces => "no interface to monitor",
            ConfigError::EmptyInterfaceToken => "empty interface token",
            ConfigError::EmptyTunnelName => "empty tunnel interface name",
        }
    }
}

} // verus!
