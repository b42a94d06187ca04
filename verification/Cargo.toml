[package]
name = "indexxorcist"
version = "0.1.0"
edition = "2021"
publish = false

[dependencies]
tiberius = "*"
tokio = { version = "*", features = ["rt-multi-thread", "macros", "net", "time", "sync"] }
tokio-util = { version = "*", features = ["compat"] }
rusqlite = { version = "*", features = ["bundled"] }
chrono = "*"
serde = { version = "*", features = ["derive"] }
serde_json = "*"
