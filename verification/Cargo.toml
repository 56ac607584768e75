[package]
name = "peri_kit"
version = "0.1.0"
edition = "2021"
publish = false

[dependencies]
anyhow = "=1.0.104"
arboard = { version = "=3.7.0", default-features = false }
chrono = { version = "=0.4.45", default-features = false, features = ["std", "clock"] }
crossterm = "=0.29.0"
fluent-bundle = "=0.16.0"
parking_lot = "=0.13.0"
ratatui = { version = "=0.30.2", features = ["unstable-rendered-line-info"] }
reqwest = { version = "=0.13.5", default-features = false, features = ["json"] }
serde_json = "=1.0.154"
tokio = { version = "=1.54.1", features = ["rt", "rt-multi-thread", "macros", "sync", "time"] }
tokio-util = "=0.7.20"
tracing = "=0.1.44"
unicode-width = "=0.2.3"
