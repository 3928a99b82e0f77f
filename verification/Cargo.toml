[package]
name = "wyrtloom_dashboard"
version = "0.1.0"
edition = "2021"
publish = false

[dependencies]
base64 = "0.22"
sha2 = "0.10"
uuid = { version = "1", features = ["v4", "serde"] }
axum = "0.7"
anyhow = "1"
clap = { version = "4", features = ["derive"] }
serde = { version = "1", features = ["derive"] }
serde_json = "1"
tokio = { version = "1", features = ["macros", "rt-multi-thread", "sync", "net"] }
tower = "0.5"
tower-http = { version = "0.6", features = ["cors", "limit", "trace", "set-header"] }
