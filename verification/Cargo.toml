[package]
name = "symgrep"
version = "0.1.0"
edition = "2021"
publish = false

[dependencies]
clap = { version = "4", features = ["derive"] }
env_logger = "0.11"
goblin = "*"
ignore = "0.4"
log = "0.4"
memmap2 = "0.9"
rayon = "1"
regex = "1"
