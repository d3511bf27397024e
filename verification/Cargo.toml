[package]
name = "agent_core"
version = "0.1.0"
edition = "2021"
publish = false

[dependencies]
shell-words = "1"
uuid = { version = "1", features = ["v4"] }
serde = { version = "1", features = ["derive"] }
serde_json = "1"

[dev-dependencies]
chrono = "0.4"
