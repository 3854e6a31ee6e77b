[package]
name = "agent_lsp"
version = "0.1.0"
edition = "2021"
publish = false

[dependencies]
agent-client-protocol = "*"
anyhow = "1"
axum = "0.8"
chrono = "0.4"
clap = { version = "4", features = ["derive"] }
futures = "0.3"
log = "0.4"
schemars = "1"
serde = { version = "1", features = ["derive"] }
serde_json = { version = "1", features = ["preserve_order"] }
shellexpand = "2"
smol = "2"
tempfile = "3"
tokio = { version = "1", features = ["net", "rt"] }
