[package]
name = "nexus_common"
version = "0.1.0"
edition = "2021"
publish = false

[dependencies]
serde = { version = "*", features = ["derive"] }
toml = "*"
tracing = "*"
uuid = { version = "*", features = ["v4"] }
ratatui = "*"
