//! Verified core of the Pulse verified-anonymous polling platform.
pub mod newtypes;
pub mod token;
pub mod messages;
pub mod aead;
pub mod ledger;
pub mod store;
pub mod decimal;
pub mod env;
pub mod server_config;
pub mod relay_config;
pub mod blind_sig;
pub mod collector;
pub mod issuer;
pub mod client;
pub mod tui;
pub mod report;
pub mod simulation;
pub mod auth;
pub mod cmk;
pub mod server;
