[package]
name = "hamachi_tui"
version = "0.1.0"
edition = "2021"
publish = false

[dependencies]
tokio = { version = "1", features = ["full"] }
crossterm = "0.28"
ratatui = "0.29"
color-eyre = "0.6"
