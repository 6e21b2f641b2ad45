[package]
name = "linear_booster"
version = "0.1.0"
edition = "2021"
publish = false

[dependencies]
derive_builder = "*"
serde = { version = "*", features = ["derive"] }
