[package]
name = "moviestream"
version = "0.1.0"
edition = "2021"
publish = false

[dependencies]
regex = "1"
urlencoding = "2"
walkdir = "2"
chrono = { version = "0.4", features = ["serde"] }
uuid = { version = "1", features = ["v4", "serde"] }
serde = { version = "1", features = ["derive"] }
serde_json = "1"
libloading = "0.8"
tokio = { version = "1", features = ["rt-multi-thread", "macros", "fs", "net", "io-util", "sync"] }
tokio-util = { version = "0.7", features = ["io"] }
axum = "0.7"
tower = { version = "0.4", features = ["limit"] }
tower-http = { version = "0.5", features = ["cors"] }
reqwest = { version = "0.12", default-features = false, features = ["json", "rustls-tls"] }
rusqlite = { version = "0.31", features = ["bundled"] }
tracing = "0.1"
