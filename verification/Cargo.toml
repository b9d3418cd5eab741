[package]
name = "keystats"
version = "0.1.0"
edition = "2021"
publish = false

[dependencies]
time = "*"
log = "*"
env_logger = "*"
