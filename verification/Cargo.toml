[package]
name = "kubetui"
version = "0.1.0"
edition = "2021"
publish = false

[dependencies]
serde_yaml = "0.9"
crossterm = "0.27"
ratatui = "0.25"
tempfile = "3"
