[package]
name = "duck_observers"
version = "0.1.0"
edition = "2021"
publish = false

[dependencies]
tokio = { version = "0.2", features = ["full"] }
rumq-client = "=0.1.0-alpha.10"
