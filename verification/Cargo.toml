[package]
name = "ralps"
version = "0.1.1"
edition = "2021"
publish = false

[dependencies]
anyhow = "=1.0.104"
chrono = { version = "=0.4.45", features = ["serde"] }
clap = { version = "=4.6.7", features = ["derive"] }
colored = "=2.2.0"
crossterm = "=0.27.0"
ratatui = "=0.26.3"
reqwest = { version = "=0.12.28", default-features = false, features = ["json"] }
serde = { version = "=1.0.229", features = ["derive"] }
serde_json = "=1.0.154"
tokio = { version = "=1.54.1", features = ["full"] }
toml = "=0.8.23"
uuid = { version = "=1.29.0", features = ["v4", "serde"] }
