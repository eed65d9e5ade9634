[package]
name = "shai_http"
version = "0.1.0"
edition = "2021"
publish = false

[dependencies]
uuid = { version = "*", features = ["v4"] }
tokio = { version = "*", features = ["rt-multi-thread", "macros", "sync", "net", "time"] }
axum = "*"
serde = { version = "*", features = ["derive"] }
serde_json = "*"
futures = "*"
tokio-stream = { version = "*", features = ["sync"] }
tower-http = { version = "*", features = ["cors"] }
