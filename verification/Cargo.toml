[package]
name = "orchestrator_core"
version = "0.1.0"
edition = "2021"
publish = false

[dependencies]
serde_json = "*"
serde = { version = "*", features = ["derive"] }
ssh2 = "*"
dirs = "*"
anyhow = "*"
