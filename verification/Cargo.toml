[package]
name = "treemd"
version = "0.1.0"
edition = "2021"
publish = false

[dependencies]
ratatui = "*"
crossterm = "*"
serde = { version = "*", features = ["derive"] }
toml = "*"
dirs = "*"

[dev-dependencies]
serde_json = "*"
