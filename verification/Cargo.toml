[package]
name = "nanogpt_core"
version = "0.1.0"
edition = "2021"
publish = false

[dependencies]
rusqlite = { version = "*", features = ["bundled"] }
uuid = { version = "*", features = ["v4"] }
reqwest = { version = "*", default-features = false, features = ["json", "stream"] }
tokio = { version = "*", features = ["rt-multi-thread", "time", "sync"] }
futures-util = "*"
serde = { version = "*", features = ["derive"] }
serde_json = "*"
chrono = "*"
home = "*"
dirs = "*"
secrecy = "*"
thiserror = "*"

[dev-dependencies]
tempfile = "*"
