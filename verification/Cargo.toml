[package]
name = "simulation"
version = "0.1.0"
edition = "2021"
publish = false

[dependencies]
rand = "0.8"
anyhow = "1"
serde = { version = "1", features = ["derive"] }
serde_json = "1"
config = "0.13"
