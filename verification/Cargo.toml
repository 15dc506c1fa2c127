[package]
name = "practice_tooled"
version = "0.1.0"
edition = "2021"
publish = false

[dependencies]
memoize = "*"
serde = { version = "1", features = ["derive"] }
serde_json = "1"
