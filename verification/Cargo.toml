[package]
name = "sophia"
version = "0.1.0"
edition = "2021"
publish = false

[dependencies]
anyhow = "1"
chrono = "0.4"
clap = { version = "4", features = ["derive"] }
crossterm = "0.28"
dns-lookup = "2"
ratatui = "0.29"
surge-ping = "0.8"
tokio = { version = "1", features = ["rt-multi-thread", "macros", "time", "sync"] }
