[package]
name = "permit_relay"
version = "0.1.0"
edition = "2021"
publish = false

[dependencies]
concordium-rust-sdk = "*"
concordium-contracts-common = { version = "*", features = ["derive-serde"] }
concordium-cis2 = "*"
ed25519-dalek = "*"
chrono = "*"
serde = { version = "*", features = ["derive"] }
serde_json = "*"
thiserror = "*"
