[package]
name = "pulse"
version = "0.1.0"
edition = "2021"
publish = false

[dependencies]
aes-gcm = "=0.11.1"
rand = "=0.10.3"
sha2 = "=0.11.1"
uuid = { version = "=1.29.0", features = ["v4", "serde"] }
blind-rsa-signatures = "=0.15.2"
derive_more = { version = "=2.0.1", features = ["full"] }
serde = { version = "=1.0.229", features = ["derive"] }
serde_json = "=1.0.154"
postcard = { version = "=1.1.3", features = ["alloc"] }
axum = "=0.8.9"
tokio = { version = "=1.54.1", features = ["full"] }
tower-http = { version = "=0.7.1", features = ["trace", "request-id"] }
tracing = "=0.1.44"
tracing-subscriber = { version = "=0.3.23", features = ["env-filter"] }
anyhow = "=1.0.104"
thiserror = "=2.0.21"
async-trait = "=0.1.92"
crossterm = "=0.29.0"
ratatui = "=0.30.2"
