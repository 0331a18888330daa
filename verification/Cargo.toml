[package]
name = "starknet_hashing"
version = "0.1.0"
edition = "2021"
publish = false

[dependencies]
sha3 = "=0.10.9"
starknet-types-core = { version = "=0.1.7", features = ["hash"] }
dashmap = "=6.2.1"
log = "=0.4.35"
tracing = "=0.1.44"
serde = { version = "=1.0.229", features = ["derive"] }
