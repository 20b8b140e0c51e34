[package]
name = "latest_sender"
version = "0.1.0"
edition = "2021"
publish = false

[dependencies]
anyhow = "1"
chrono = "0.4"
glob = "0.3"
humantime = "2"
reqwest = { version = "0.12", default-features = false, features = ["blocking"] }
serde = { version = "1", features = ["derive"] }
tokio = { version = "1", features = ["rt", "fs"] }
toml = "0.8"

[dev-dependencies]
mockito = "1"
tempfile = "3"
