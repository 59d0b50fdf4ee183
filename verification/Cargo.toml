[package]
name = "yt_mirror"
version = "0.1.0"
edition = "2021"
publish = false

[dependencies]
anyhow = "1"
clap = { version = "4", features = ["derive"] }
crossbeam-channel = "0.5"
crossterm = "0.25"
home-dir = "0.1"
rusqlite = "0.29"
serde = { version = "1", features = ["derive"] }
serde_json = "1"
toml = "0.7"
tui = "0.19"
url = "2"
