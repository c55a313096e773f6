[package]
name = "spectrum_analyzer"
version = "0.1.0"
edition = "2021"
publish = false

[dependencies]
crossbeam-channel = "*"
fundsp = "*"
serde = { version = "*", features = ["derive"] }
serde_json = "*"
