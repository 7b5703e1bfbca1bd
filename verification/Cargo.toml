[package]
name = "disint"
version = "0.1.0"
edition = "2021"
publish = false

[dependencies]
ring = "*"
serde = { version = "*", features = ["derive"] }
chrono = { version = "*", features = ["serde"] }
tide = "*"
async-trait = "*"
derive_builder = "*"
