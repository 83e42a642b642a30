[package]
name = "mcp_extensions"
version = "0.1.0"
edition = "2021"
publish = false

[dependencies]
sha2 = "=0.11.1"
chrono = "=0.4.45"
serde = { version = "=1.0.229", features = ["derive"] }
serde_json = "=1.0.154"
schemars = "=1.2.3"
rmcp = "=3.8.0"
uuid = { version = "=1.29.0", features = ["v4"] }
tracing = "=0.1.44"
