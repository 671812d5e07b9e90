[package]
name = "orion_ai"
version = "0.1.0"
edition = "2021"
publish = false

[dependencies]
serde_json = "1"
uuid = { version = "1", features = ["v4"] }
chrono = { version = "0.4", default-features = false, features = ["std", "clock"] }
tokio = { version = "1", features = ["process", "time", "rt", "sync"] }
async-trait = "0.1"
serde = { version = "1", features = ["derive"] }
thiserror = "1"
log = "0.4"
