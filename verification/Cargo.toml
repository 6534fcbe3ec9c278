[package]
name = "ai_toolkit"
version = "0.1.0"
edition = "2021"
publish = false

[dependencies]
serde_json = "1"
serde = { version = "1", features = ["derive"] }
reqwest = { version = "0.12", default-features = false, features = ["json"] }
tokio = { version = "1", features = ["rt", "time", "macros", "sync"] }
futures-util = "0.3"
sysinfo = "0.33"
