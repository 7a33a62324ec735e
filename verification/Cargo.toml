[package]
name = "reedline"
version = "0.1.0"
edition = "2021"
publish = false

[dependencies]
unicode-segmentation = "=1.13.3"
crossterm = "=0.28.1"
serde = { version = "=1.0.229", features = ["derive"] }
modalkit = { version = "*", default-features = false }
