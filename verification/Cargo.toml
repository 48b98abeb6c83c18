[package]
name = "slate"
version = "0.1.0"
edition = "2021"
publish = false

[dependencies]
blake2-rfc = "=0.2.18"
ed25519-dalek = "=1.0.1"
grin_core = "=5.5.2"
grin_keychain = "=5.5.2"
grin_util = "=5.5.2"
rand = "=0.6.5"
serde = { version = "=1.0.229", features = ["derive"] }
serde_json = "=1.0.154"
uuid = { version = "=0.8.2", features = ["serde", "v4"] }
