[package]
name = "ghidra_cli"
version = "0.4.0"
edition = "2021"
publish = false

[dependencies]
regex = "1"
comfy-table = "7"
serde = { version = "1", features = ["derive"] }
serde_json = "1"
clap = { version = "4", features = ["derive", "env"] }
anyhow = "1"
dirs = "5"
serde_yaml = "0.9"
tokio = { version = "1", features = ["rt", "macros"] }
tracing = "0.1"
tracing-appender = "0.2"
tracing-subscriber = { version = "0.3", features = ["env-filter"] }
rusqlite = { version = "*", features = ["bundled"] }
