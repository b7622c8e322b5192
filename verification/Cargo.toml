[package]
name = "grw"
version = "0.1.0"
edition = "2021"
publish = false

[dependencies]
git2 = { version = "0.20", default-features = false }
scc = "2"
ratatui = "0.29"
crossterm = "0.28"
clap = { version = "4", features = ["derive"] }
serde = { version = "1", features = ["derive"] }
serde_json = "1"
dirs = "6"
color-eyre = "0.6"
log = "0.4"
tokio = { version = "1", features = ["rt-multi-thread", "macros", "time", "sync"] }
