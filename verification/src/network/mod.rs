//! Protocol logic of the TCP and UDP connections: framing, command bookkeeping
//! and the interpretation of responses.

pub mod channel;
pub mod command;
pub mod framing;
pub mod handshake;

use std::time::Duration;

use vstd::prelude::*;

use crate::constants::{DEFAULT_TIMEOUT_MS, KEEPALIVE_IDLE_SECS, KEEPALIVE_INTERVAL_SECS};

verus! {

/// The duration of `millis` milliseconds, as `Duration::from_millis` makes it.
pub uninterp spec fn millis_duration(millis: u64) -> Duration;

/// The duration of `secs` seconds, as `Duration::from_secs` makes it.
pub uninterp spec fn secs_duration(secs: u64) -> Duration;

/// `Duration::from_millis`: its result depends on the number of milliseconds alone.
#[verifier::external_body]
fn duration_from_millis(millis: u64) -> (d: Duration)
    ensures
        d == millis_duration(millis),
{
    Duration::from_millis(millis)
}

/// `Duration::from_secs`: its result depends on the number of seconds alone.
#[verifier::external_body]
fn duration_from_secs(secs: u64) -> (d: Duration)
    ensures
        d == secs_duration(secs),
{
    Duration::from_secs(secs)
}

/// `Duration`'s `Clone`: `Duration` is `Copy`, and its clone is the same value.
pub assume_specification[ <Duration as Clone>::clone ](d: &Duration) -> (r: Duration)
    ensures
        r == *d,
;

/// Configuration for the network connection.
#[derive(Debug, Clone)]
pub struct NetworkConfig {
    pub tcp_timeout: Duration,
    pub udp_timeout: Duration,
    pub keepalive_enabled: bool,
    pub keepalive_idle: Duration,
    pub keepalive_interval: Duration,
}

impl Default for NetworkConfig {
    /// Timeouts of `DEFAULT_TIMEOUT_MS` milliseconds, keepalive enabled with an idle
    /// time of `KEEPALIVE_IDLE_SECS` and an interval of `KEEPALIVE_INTERVAL_SECS` seconds.
    fn default() -> (c: NetworkConfig)
        ensures
            c.tcp_timeout == millis_duration(DEFAULT_TIMEOUT_MS),
            c.udp_timeout == millis_duration(DEFAULT_TIMEOUT_MS),
            c.keepalive_enabled,
            c.keepalive_idle == secs_duration(KEEPALIVE_IDLE_SECS),
            c.keepalive_interval == secs_duration(KEEPALIVE_INTERVAL_SECS),
    {
        NetworkConfig {
            tcp_timeout: duration_from_millis(DEFAULT_TIMEOUT_MS),
            udp_timeout: duration_from_millis(DEFAULT_TIMEOUT_MS),
            keepalive_enabled: true,
            keepalive_idle: duration_from_secs(KEEPALIVE_IDLE_SECS),
            keepalive_interval: duration_from_secs(KEEPALIVE_INTERVAL_SECS),
        }
    }
}

} // verus!
