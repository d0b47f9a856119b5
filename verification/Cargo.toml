[package]
name = "vm"
version = "0.1.0"
edition = "2021"

[dependencies]
log = "*"
env_logger = "*"
