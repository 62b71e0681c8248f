[package]
name = "mocha"
version = "0.1.0"
edition = "2021"
publish = false

[dependencies]
camino = "1"
serde = { version = "1", features = ["derive"] }
serde_yaml = "0.9"
yansi = "0.5"
