[package]
name = "proxy_parser"
version = "0.1.0"
edition = "2021"
publish = false

[dependencies]
serde_json = "*"
misc-conf = "*"
calamine = "*"
clap = { version = "*", features = ["derive"] }
walkdir = "*"
log = "*"
env_logger = "*"
