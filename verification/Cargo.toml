[package]
name = "timecode"
version = "0.1.0"
edition = "2021"
publish = false

[dependencies]
frame-rate = "*"
serde = { version = "1", features = ["derive"] }
