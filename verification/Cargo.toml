[package]
name = "bratch"
version = "0.1.0"
edition = "2021"
publish = false

[dependencies]
clap = { version = "4", features = ["derive"] }
serde = { version = "1", features = ["derive"] }
toml = "0.8"
thiserror = "2"
ed25519-dalek = "2"
base64 = "0.22"

[dev-dependencies]
serde_json = "1"
