[package]
name = "cryptop"
version = "0.1.0"
edition = "2021"
publish = false

[dependencies]
anyhow = "1"
crossterm = "0.27"
ratatui = "0.23"
serde_json = "1"
to_precision = "*"
ureq = { version = "2", features = ["json"] }
