[package]
name = "moccasin"
version = "0.1.0"
edition = "2021"
publish = false

[dependencies]
anyhow = "1"
chrono = "0.4"
clap = { version = "4", features = ["derive"] }
colorsys = "0.6"
crossterm = "0.28"
directories = "5"
futures = "0.3"
html-escape = "0.2"
html_parser = "0.7"
log = "0.4"
ratatui = "0.29"
reqwest = "0.12"
rss = "2"
rusqlite = { version = "0.32", features = ["bundled"] }
serde = { version = "1", features = ["derive"] }
simplelog = "0.12"
tokio = { version = "1", features = ["rt-multi-thread", "macros", "sync", "time"] }
toml = "0.8"
toml_edit = "0.22"
