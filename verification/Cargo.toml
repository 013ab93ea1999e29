[package]
name = "helpman"
version = "0.1.0"
edition = "2021"
publish = false

[dependencies]
toml = "0.8"
clap = { version = "4", features = ["derive"] }
