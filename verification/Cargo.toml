[package]
name = "bevy_tui"
version = "0.1.0"
edition = "2021"
publish = false

[dependencies]
bevy = { version = "0.14", default-features = false }
crossterm = "0.27"
ratatui = "0.26"
