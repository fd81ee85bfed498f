[package]
name = "effektio"
version = "0.1.0"
edition = "2021"
publish = false

[dependencies]
anyhow = "=1.0.104"
futures = "=0.3.34"
futures-signals = "=0.3.34"
log = "=0.4.35"
matrix-sdk = { version = "=0.5.0", default-features = false, features = ["e2e-encryption", "rustls-tls"] }
parking_lot = "=0.12.5"
ruma = { version = "=0.6.4", features = ["compat", "events"] }
serde_json = "=1.0.154"
tokio = { version = "=1.54.1", features = ["rt-multi-thread"] }

[dev-dependencies]
matrix-sdk-base = "=0.5.1"
