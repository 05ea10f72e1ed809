[package]
name = "mcp_agent"
version = "0.1.0"
edition = "2021"
publish = false

[dependencies]
async-openai = "=0.28.3"
async-trait = "0.1"
axum = "0.8"
rmcp = { version = "0.3", features = ["client", "server", "reqwest", "transport-io", "transport-child-process", "transport-sse-client", "transport-sse-server", "transport-streamable-http-client", "transport-streamable-http-server"] }
serde = { version = "1", features = ["derive"] }
serde_json = "=1.0.154"
tokio = { version = "1", features = ["full"] }
toml = "0.8"
