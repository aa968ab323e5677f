//! Decision logic of a controller that keeps a VPN tunnel running only while
//! the uplink lacks public IPv6 connectivity.
//!
//! Every iteration the controller samples the addresses bound to a chosen set
//! of network interfaces and the running state of the tunnel's service unit,
//! and from that snapshot alone decides whether to start, stop or restart the
//! unit, or to leave it as it is.

pub mod address;
pub mod completion;
pub mod config;
pub mod driver;
pub mod filter;
pub mod observer;
pub mod policy;
pub mod probe;
pub mod service;
