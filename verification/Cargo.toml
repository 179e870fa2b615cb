[package]
name = "llm_client"
version = "0.1.0"
edition = "2021"
publish = false

[dependencies]
web-time = "1"
reqwest = { version = "0.11", default-features = false, features = ["json", "stream", "rustls-tls"] }
eventsource-stream = "0.2"
futures = "0.3"
tokio = { version = "1", features = ["rt-multi-thread", "sync", "macros", "time"] }
serde = { version = "1", features = ["derive"] }
serde_json = "1"
