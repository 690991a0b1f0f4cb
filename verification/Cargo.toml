[package]
name = "whisper_wrapper_rust"
version = "0.1.0"
edition = "2021"
publish = false

[dependencies]
clap = { version = "*", features = ["derive"] }
dirs = "*"
env_logger = "*"
indicatif = "*"
log = "*"
reqwest = { version = "*", default-features = false, features = ["blocking", "rustls-tls"] }
thiserror = "*"
