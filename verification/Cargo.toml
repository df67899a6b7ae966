[package]
name = "majjit"
version = "0.1.0"
edition = "2021"
publish = false

[dependencies]
anyhow = "1"
regex = "1"
fuzzy-matcher = "0.3"
indexmap = "2"
crossterm = "*"
ratatui = "*"
ratatui-textarea = "*"
ansi-to-tui = "*"
clap = { version = "4", features = ["derive"] }
tempfile = "3"
tokio = { version = "1", features = ["rt", "macros", "sync"] }
watchman_client = "*"
