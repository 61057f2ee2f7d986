[package]
name = "amico"
version = "0.1.0"
edition = "2021"
publish = false

[dependencies]
serde = { version = "=1.0.229", features = ["derive"] }
serde_json = "=1.0.154"
chrono = "=0.4.45"
tiny-bip39 = "=2.0.0"
rig-core = "=0.11.1"
