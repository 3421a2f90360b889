[package]
name = "tmuxify"
version = "0.1.0"
edition = "2021"
publish = false

[dependencies]
serde_yaml = "*"
clap = { version = "*", features = ["derive"] }
