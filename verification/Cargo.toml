[package]
name = "pdcst"
version = "0.1.0"
edition = "2021"
publish = false

[dependencies]
unicode-segmentation = "=1.13.3"
unicode-width = "0.2"
clap = { version = "=4.6.7", features = ["derive"] }
opml = "=1.1.6"
serde = { version = "=1.0.229", features = ["derive"] }
serde_json = "=1.0.154"
anyhow = "=1.0.104"
thiserror = "=2.0.21"
uuid = { version = "=1.29.0", features = ["v4"] }
chrono = "=0.4.45"
rss = "2"
atom_syndication = "0.12"
ratatui = "=0.29.0"
crossterm = "=0.28.1"
tokio = { version = "1", features = ["rt-multi-thread", "macros", "time", "sync"] }
reqwest = { version = "0.12", default-features = false, features = ["rustls-tls", "json", "stream"] }
futures = "0.3"
toml = "0.8"
dirs = "6"
