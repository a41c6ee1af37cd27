[package]
name = "hstack_agent"
version = "0.1.0"
edition = "2021"
publish = false

[dependencies]
serde = { version = "1", features = ["derive"] }
serde_json = "1"
chrono = { version = "0.4", default-features = false, features = ["std", "clock"] }
url = "2"
rand = "0.8"
tokio = { version = "1", features = ["sync", "time", "rt", "macros"] }
