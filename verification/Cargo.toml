[package]
name = "rustsynth"
version = "0.1.0"
edition = "2021"
publish = false

[dependencies]
anyhow = "=1.0.104"
arc-swap = "=1.7.1"
crossbeam-channel = "=0.5.17"
crossterm = "=0.28.1"
hound = "=3.5.1"
ratatui = "=0.28.1"
serde = { version = "=1.0.229", features = ["derive"] }
serde_json = "=1.0.154"
