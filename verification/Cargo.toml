[package]
name = "editor"
version = "0.1.0"
edition = "2021"
publish = false

[dependencies]
crossterm = "=0.29.0"
ratatui = "=0.30.2"
color-eyre = "=0.6.5"
tui-textarea = { version = "=0.6.1", features = ["search"] }
chrono = "=0.4.45"
tokio = { version = "*", features = ["sync"] }
