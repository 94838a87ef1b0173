[package]
name = "oracle"
version = "0.1.0"
edition = "2021"
publish = false

[dependencies]
chrono = { version = "0.4", features = ["serde"] }
serde = { version = "1", features = ["derive"] }
serde_json = "1"
dirs = "5"
log = "0.4"
axum = "0.7"
tokio = { version = "1", features = ["rt-multi-thread", "net", "fs", "time", "macros"] }
reqwest = { version = "0.12", default-features = false, features = ["json"] }
