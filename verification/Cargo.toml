[package]
name = "tagger"
version = "0.1.0"
edition = "2021"
publish = false

[dependencies]
camino = "*"
chrono = "*"
clap = { version = "*", features = ["derive"] }
env_logger = "*"
log = "*"
wild = "*"
