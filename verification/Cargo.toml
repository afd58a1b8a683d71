[package]
name = "codex_updates"
version = "0.1.0"
edition = "2021"
publish = false

[dependencies]
semver = "1"
shlex = "1"
url = "2"
serde = { version = "1", features = ["derive"] }
serde_json = "1"
chrono = { version = "0.4", features = ["serde"] }
anyhow = "1"
tracing = "0.1"
tokio = { version = "1", features = ["rt", "fs"] }
