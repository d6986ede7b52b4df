[package]
name = "gossip_ledger"
version = "0.1.0"
edition = "2021"
publish = false

[dependencies]
chrono = "0.4"
ed25519-dalek = "1"
hex = "0.4"
lazy_static = "1"
log = "0.4"
miniz_oxide = "0.8"
rand = "0.7"
serde = { version = "1", features = ["derive"] }
serde_bytes = "0.11"
serde_json = "1"
sha3 = "0.10"
simple_logger = "1"
