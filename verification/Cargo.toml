[package]
name = "larkin_mcp"
version = "0.1.0"
edition = "2021"
publish = false

[dependencies]
base64 = "=0.23.1"
serde = { version = "*", features = ["derive"] }
serde_json = "*"
schemars = "*"
anyhow = "*"
tokio = { version = "*", features = ["full"] }
rmcp = { version = "=3.5.1", features = ["transport-io"] }
