[package]
name = "health_dashboard"
version = "0.1.0"
edition = "2021"
publish = false

[dependencies]
dashmap = "*"
serde = { version = "1", features = ["derive"] }
serde_json = "1"
tokio = { version = "1", features = ["rt-multi-thread", "macros", "time", "net"] }
axum = "*"
reqwest = { version = "*", default-features = false, features = ["json"] }
