[package]
name = "rens"
version = "0.1.0"
edition = "2021"
publish = false

[dependencies]
regex = "1"
anyhow = "1"
clap = { version = "4", features = ["derive"] }
clap_complete_command = "*"
clap_mangen = "*"
clap-verbosity-flag = "*"
dunce = "*"
env_logger = "*"
ignore = "*"
log = "*"
