[package]
name = "warrant_spec"
version = "0.1.0"
edition = "2021"
publish = false

[dependencies]
serde = { version = "1", features = ["derive"] }
blake3 = { version = "1", features = ["pure"] }
ed25519-dalek = "2"
