[package]
name = "serialserver"
version = "0.1.0"
edition = "2021"
publish = false

[dependencies]
backtrace = "*"
serde = { version = "*", features = ["derive"] }
toml = "*"
