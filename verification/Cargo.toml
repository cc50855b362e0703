[package]
name = "logspan"
version = "0.1.0"
edition = "2021"
publish = false

[dependencies]
anyhow = "1"
chrono = { version = "0.4", default-features = false, features = ["std"] }
clap = { version = "4", features = ["derive"] }
encoding_rs = "0.8"
encoding_rs_io = "0.1"
env_logger = "0.11"
log = "0.4"
regex = "1"
