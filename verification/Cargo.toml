[package]
name = "agent_turns"
version = "0.1.0"
edition = "2021"
publish = false

[dependencies]
anyhow = "=1.0.104"
futures = "=0.3.34"
oauth2 = { version = "=5.0.0", default-features = false }
quick-xml = { version = "=0.42.0", features = ["serde-types", "serialize"] }
reqwest = { version = "=0.13.5", default-features = false }
rmcp = { version = "=1.8.0", default-features = false, features = ["auth", "client", "transport-streamable-http-client"] }
serde = { version = "=1.0.229", features = ["derive"] }
serde_json = "=1.0.154"
sha2 = "=0.10.9"
sse-stream = "=0.2.6"
thiserror = "=2.0.21"
tokio = { version = "=1.54.1", features = ["rt", "sync", "time", "macros"] }
toml = "=1.1.8"
tracing = "=0.1.44"
uuid = { version = "=1.29.0", features = ["v4"] }
