[package]
name = "hackernews_rs"
version = "0.1.0"
edition = "2021"
publish = false

[dependencies]
serde_json = "1"
url = "2"
serde = { version = "1", features = ["derive"] }
eframe = { version = "0.22", default-features = false, features = ["default_fonts", "glow"] }
ehttp = "0.2"
poll-promise = "0.2"
reqwest = { version = "0.11", default-features = false, features = ["json", "rustls-tls"] }
tokio = { version = "1", features = ["rt-multi-thread"] }
futures = "0.3"
