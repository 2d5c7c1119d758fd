[package]
name = "gitop"
version = "0.1.0"
edition = "2021"
publish = false

[dependencies]
clap = { version = "*", features = ["derive"] }
clap-verbosity-flag = "*"
log = "*"
pretty_env_logger = "*"
