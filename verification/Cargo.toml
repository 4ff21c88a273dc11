[package]
name = "scanner_tool"
version = "0.1.0"
edition = "2021"
publish = false

[dependencies]
chrono = { version = "0.4", default-features = false, features = ["std", "now", "serde"] }
dirs = "5"
printpdf = { version = "0.7", default-features = false }
rand = "0.8"
serde = { version = "1", features = ["derive"] }
tokio = { version = "1", features = ["rt", "time", "sync"] }
uuid = { version = "1", features = ["v4"] }
