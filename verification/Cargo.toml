[package]
name = "chron_dpi"
version = "0.1.0"
edition = "2021"
publish = false

[dependencies]
hidapi = "*"
ratatui = "*"
color-eyre = "*"
env_logger = "*"
log = "*"
