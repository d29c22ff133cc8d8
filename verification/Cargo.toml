[package]
name = "wallet_session"
version = "0.1.0"
edition = "2021"
publish = false

[dependencies]
dyn-clone = "=1.0.20"
ed25519-dalek = "=1.0.1"
hex = "=0.4.3"
nekoton = "=0.0.1"
serde = { version = "=1.0.229", features = ["derive"] }
serde_json = "=1.0.154"
tokio = { version = "=1.54.1", features = ["rt-multi-thread", "sync"] }
