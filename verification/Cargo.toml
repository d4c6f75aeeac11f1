[package]
name = "codex_acp"
version = "0.1.0"
edition = "2021"
publish = false

[dependencies]
agent-client-protocol = "*"
codex-protocol = "*"
serde = { version = "1", features = ["derive"] }
serde_json = "1"
tracing = "*"
