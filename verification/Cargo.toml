[package]
name = "mcp_sessions"
version = "0.1.0"
edition = "2021"
publish = false

[dependencies]
serde = { version = "=1.0.229", features = ["derive"] }
serde_json = "=1.0.151"
uuid = { version = "=1.27.0", features = ["v4"] }
tokio = { version = "=1.53.2", features = ["full"] }
tokio-util = "=0.7.19"
futures = "=0.3.34"
reqwest = { version = "=0.13.5", default-features = false, features = ["json", "stream"] }
eventsource-stream = "=0.2.3"
rmcp = { version = "=3.5.1", features = ["client", "transport-worker", "transport-streamable-http-client-reqwest"] }
axum = { version = "0.8", features = ["multipart"] }
tower-http = { version = "0.6", features = ["cors"] }
