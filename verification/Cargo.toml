[package]
name = "netcanv"
version = "0.1.0"
edition = "2021"
publish = false

[dependencies]
crossbeam-channel = "0.5"
bincode = "1"
serde = { version = "1", features = ["derive"] }
directories = "*"
sys-locale = "*"
toml = "*"
clap = { version = "4", features = ["derive"] }
