[package]
name = "llm_playground"
version = "0.1.0"
edition = "2021"
publish = false

[dependencies]
serde_json = "=1.0.151"
serde = { version = "=1.0.229", features = ["derive"] }
futures = "=0.3.34"
tokio = { version = "=1.53.2", features = ["rt", "rt-multi-thread", "macros", "time", "sync"] }
reqwest = { version = "=0.13.5", default-features = false, features = ["stream"] }
eventsource-stream = "=0.2.3"
dirs = "*"
