[package]
name = "mcp-server"
version = "0.1.0"
edition = "2021"
publish = false

[dependencies]
mcp-core-fishcode2025 = "*"
serde_json = "1"
thiserror = "1"
tower = { version = "0.4", features = ["timeout"] }
