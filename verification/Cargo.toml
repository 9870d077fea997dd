[package]
name = "lstsq"
version = "0.1.0"
edition = "2021"
publish = false

[dependencies]
faer = "*"
serde = { version = "*", features = ["derive"] }
