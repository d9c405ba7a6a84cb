//! Server configuration from environment variables.
use vstd::prelude::*;

use crate::decimal::{parse_u32, parse_unsigned};
use crate::env::{env_or, env_value_or};

verus! {

/// Server configuration loaded from environment variables.
pub struct Config {
    /// Identity zone listen address (`PULSE_IDENTITY_ADDR`, default `127.0.0.1:8001`).
    pub identity_addr: String,
    /// Signal zone listen address (`PULSE_SIGNAL_ADDR`, default `127.0.0.1:8002`).
    pub signal_addr: String,
    /// Storage backend URI (`PULSE_DB_URL`, default `memory`): `memory` or
    /// `sqlite:<path>`.
    pub db_url: String,
    /// Path to the PEM-encoded signing key (`PULSE_KEY_PATH`, default `pulse-signing-key.pem`).
    pub key_path: String,
    /// Current key version (`PULSE_KEY_VERSION`, default `1`).
    pub key_version: u32,
    /// Authentication provider (`PULSE_AUTH_PROVIDER`, default `dev`).
    pub auth_provider: String,
}

/// The text of `PULSE_KEY_VERSION`, or its default.
pub open spec fn key_version_text(vars: Seq<(String, String)>) -> Seq<char> {
    env_value_or(vars, "PULSE_KEY_VERSION"@, "1"@)
}

impl Config {
    /// Load the configuration from the environment `vars`, falling back to
    /// defaults. `PULSE_KEY_VERSION`, when set, must be a `u32` in decimal
    /// ("PULSE_KEY_VERSION must be a positive integer").
    pub fn from_env(vars: &Vec<(String, String)>) -> (r: Self)
        requires
            parse_unsigned(key_version_text(vars@), u32::MAX as int) is Some,
        ensures
            r.identity_addr@ == env_value_or(vars@, "PULSE_IDENTITY_ADDR"@, "127.0.0.1:8001"@),
            r.signal_addr@ == env_value_or(vars@, "PULSE_SIGNAL_ADDR"@, "127.0.0.1:8002"@),
            r.db_url@ == env_value_or(vars@, "PULSE_DB_URL"@, "memory"@),
            r.key_path@ == env_value_or(vars@, "PULSE_KEY_PATH"@, "pulse-signing-key.pem"@),
            parse_unsigned(key_version_text(vars@), u32::MAX as int) == Some(r.key_version as int),
            r.auth_provider@ == env_value_or(vars@, "PULSE_AUTH_PROVIDER"@, "dev"@),
    {
        let key_version_raw = env_or(vars, "PULSE_KEY_VERSION", "1");
        let key_version = match parse_u32(key_version_raw.as_str()) {
            Some(v) => v,
            None => 0,
        };
        Config {
            identity_addr: env_or(vars, "PULSE_IDENTITY_ADDR", "127.0.0.1:8001"),
            signal_addr: env_or(vars, "PULSE_SIGNAL_ADDR", "127.0.0.1:8002"),
            db_url: env_or(vars, "PULSE_DB_URL", "memory"),
            key_path: env_or(vars, "PULSE_KEY_PATH", "pulse-signing-key.pem"),
            key_version,
            auth_provider: env_or(vars, "PULSE_AUTH_PROVIDER", "dev"),
        }
    }
}

} // verus!
