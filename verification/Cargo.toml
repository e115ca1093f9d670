[package]
name = "claude_agent_sdk"
version = "0.1.0"
edition = "2021"
publish = false

[dependencies]
serde = { version = "*", features = ["derive"] }
serde_json = "*"
tokio = { version = "*", features = ["full"] }
futures = "*"
async-stream = "*"
async-trait = "*"
which = "*"
dirs = "*"
thiserror = "*"
