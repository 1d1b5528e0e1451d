[package]
name = "muse"
version = "0.1.0"
edition = "2021"
publish = false

[dependencies]
crossterm = "=0.28.1"
ratatui = "=0.29.0"
ratatui-image = "=8.1.1"
image = { version = "=0.25.10", default-features = false, features = ["jpeg", "png"] }
serde = { version = "=1.0.229", features = ["derive"] }
serde_json = "=1.0.154"
toml = "=0.8.23"
ureq = { version = "=2.12.1", features = ["json"] }
