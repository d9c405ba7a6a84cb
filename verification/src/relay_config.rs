//! Anonymizing relay configuration from environment variables.
use vstd::prelude::*;

use crate::decimal::{parse_u64, parse_unsigned, parse_usize};
use crate::env::{env_or, env_value_or};

verus! {

/// Relay configuration loaded from environment variables.
pub struct Config {
    /// Relay listen address (`PULSE_RELAY_ADDR`, default `127.0.0.1:8003`).
    pub listen_addr: String,
    /// Signal zone base URL to forward responses to
    /// (`PULSE_RELAY_SIGNAL_URL`, default `http://127.0.0.1:8002`).
    pub signal_url: String,
    /// Max items per batch before flushing (`PULSE_RELAY_BATCH_SIZE`, default `10`).
    pub batch_size: usize,
    /// Seconds between periodic batch flushes (`PULSE_RELAY_BATCH_WINDOW_SECS`, default `5`).
    pub batch_window_secs: u64,
    /// Minimum per-item random forwarding delay in ms (`PULSE_RELAY_MIN_DELAY_MS`, default `0`).
    pub min_delay_ms: u64,
    /// Maximum per-item random forwarding delay in ms (`PULSE_RELAY_MAX_DELAY_MS`, default `0`).
    pub max_delay_ms: u64,
    /// Timeout for the upstream POST to the Signal zone in seconds
    /// (`PULSE_RELAY_REQUEST_TIMEOUT_SECS`, default `30`).
    pub request_timeout_secs: u64,
}

/// The numeric value that `key` (or its default) gives, if it parses.
pub open spec fn env_number(vars: Seq<(String, String)>, key: Seq<char>, default: Seq<char>, max: int) -> Option<int> {
    parse_unsigned(env_value_or(vars, key, default), max)
}

/// Whether every numeric relay variable parses.
pub open spec fn relay_env_valid(vars: Seq<(String, String)>) -> bool {
    &&& env_number(vars, "PULSE_RELAY_BATCH_SIZE"@, "10"@, usize::MAX as int) is Some
    &&& env_number(vars, "PULSE_RELAY_BATCH_WINDOW_SECS"@, "5"@, u64::MAX as int) is Some
    &&& env_number(vars, "PULSE_RELAY_MIN_DELAY_MS"@, "0"@, u64::MAX as int) is Some
    &&& env_number(vars, "PULSE_RELAY_MAX_DELAY_MS"@, "0"@, u64::MAX as int) is Some
    &&& env_number(vars, "PULSE_RELAY_REQUEST_TIMEOUT_SECS"@, "30"@, u64::MAX as int) is Some
}

/// The `u64` that `key` (or its default) gives; the caller guarantees it parses.
fn env_u64(vars: &Vec<(String, String)>, key: &str, default: &str) -> (r: u64)
    requires
        env_number(vars@, key@, default@, u64::MAX as int) is Some,
    ensures
        env_number(vars@, key@, default@, u64::MAX as int) == Some(r as int),
{
    let raw = env_or(vars, key, default);
    match parse_u64(raw.as_str()) {
        Some(v) => v,
        None => 0,
    }
}

impl Config {
    /// Load the relay configuration from the environment `vars`, falling back
    /// to defaults. Every numeric variable that is set must parse as its type.
    pub fn from_env(vars: &Vec<(String, String)>) -> (r: Self)
        requires
            relay_env_valid(vars@),
        ensures
            r.listen_addr@ == env_value_or(vars@, "PULSE_RELAY_ADDR"@, "127.0.0.1:8003"@),
            r.signal_url@ == env_value_or(vars@, "PULSE_RELAY_SIGNAL_URL"@, "http://127.0.0.1:8002"@),
            env_number(vars@, "PULSE_RELAY_BATCH_SIZE"@, "10"@, usize::MAX as int) == Some(r.batch_size as int),
            env_number(vars@, "PULSE_RELAY_BATCH_WINDOW_SECS"@, "5"@, u64::MAX as int) == Some(r.batch_window_secs as int),
            env_number(vars@, "PULSE_RELAY_MIN_DELAY_MS"@, "0"@, u64::MAX as int) == Some(r.min_delay_ms as int),
            env_number(vars@, "PULSE_RELAY_MAX_DELAY_MS"@, "0"@, u64::MAX as int) == Some(r.max_delay_ms as int),
            env_number(vars@, "PULSE_RELAY_REQUEST_TIMEOUT_SECS"@, "30"@, u64::MAX as int) == Some(r.request_timeout_secs as int),
    {
        let batch_raw = env_or(vars, "PULSE_RELAY_BATCH_SIZE", "10");
        let batch_size = match parse_usize(batch_raw.as_str()) {
            Some(v) => v,
            None => 0,
        };
        Config {
            listen_addr: env_or(vars, "PULSE_RELAY_ADDR", "127.0.0.1:8003"),
            signal_url: env_or(vars, "PULSE_RELAY_SIGNAL_URL", "http://127.0.0.1:8002"),
            batch_size,
            batch_window_secs: env_u64(vars, "PULSE_RELAY_BATCH_WINDOW_SECS", "5"),
            min_delay_ms: env_u64(vars, "PULSE_RELAY_MIN_DELAY_MS", "0"),
            max_delay_ms: env_u64(vars, "PULSE_RELAY_MAX_DELAY_MS", "0"),
            request_timeout_secs: env_u64(vars, "PULSE_RELAY_REQUEST_TIMEOUT_SECS", "30"),
        }
    }
}

} // verus!
