[package]
name = "ftp_core"
version = "0.1.0"
edition = "2021"
publish = false

[dependencies]
portpicker = "*"
anyhow = "*"
log = "*"
env_logger = "*"
