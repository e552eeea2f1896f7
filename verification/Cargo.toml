[package]
name = "mcpg-plugin-backend-llm-compat"
version = "0.1.0"
edition = "2021"
publish = false

[dependencies]
serde = { version = "1", features = ["derive"] }
serde_json = "1"
futures = "0.3"
metrics = "*"
tracing = "0.1"
