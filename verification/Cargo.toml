[package]
name = "cervine"
version = "0.0.2"
edition = "2021"
publish = false

[dependencies]
serde = "1"

[dev-dependencies]
serde_json = "1"
