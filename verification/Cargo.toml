[package]
name = "hash_bridge"
version = "0.1.0"
edition = "2021"
publish = false

[dependencies]
sha2 = "=0.10.9"
keccak-hash = "=0.10.0"
base64 = "=0.13.1"
plonky2 = "=0.1.3"
anyhow = "=1.0.104"
log = "=0.4.34"
serde = { version = "=1.0.229", features = ["derive"] }
