[package]
name = "sympil"
version = "0.1.0"
edition = "2021"
publish = false

[dependencies]
chrono = "=0.4.45"
clap = { version = "=4.6.7", features = ["derive", "cargo"] }
config = { version = "=0.15.27", default-features = false, features = ["toml"] }
crossterm = "=0.28.1"
rand = "=0.9.5"
ratatui = "=0.29.0"
ratzilla = "=0.2.0"
reqwest = { version = "=0.12.28", default-features = false, features = ["json"] }
serde = { version = "=1.0.229", features = ["derive"] }
serde_json = "=1.0.154"
shellexpand = "=3.1.2"
tachyonfx = "0.13"
textwrap = "=0.16.4"
tokio = { version = "=1.54.1", features = ["rt", "macros", "sync", "time"] }
toml = "=1.1.8"
tui-input = "=0.11.1"
tui-markdown = "=0.3.12"
validator = { version = "=0.21.0", features = ["derive"] }
web-time = "1"
