[package]
name = "panpipe"
version = "0.1.0"
edition = "2021"
publish = false

[dependencies]
anyhow = "=1.0.104"
chrono = { version = "=0.4.45", default-features = false, features = ["std", "now", "serde"] }
crossterm = "0.28"
dirs = "=5.0.1"
id3 = "=1.17.2"
mp4ameta = "=0.11.0"
rand = "=0.8.8"
ratatui = "0.29"
regex = "=1.13.1"
rusqlite = { version = "=0.32.1", features = ["bundled"] }
serde = { version = "=1.0.229", features = ["derive"] }
serde_json = "=1.0.154"
tokio = { version = "=1.54.1", default-features = false, features = ["rt-multi-thread", "macros", "sync", "time"] }
toml = "=0.8.23"
tracing = "=0.1.44"
uuid = { version = "=1.29.0", features = ["v4", "serde"] }
walkdir = "=2.5.0"
xxhash-rust = { version = "=0.8.19", features = ["xxh64"] }
