[package]
name = "game"
version = "0.1.0"
edition = "2021"
publish = false

[dependencies]
anyhow = "=1.0.104"
ash = "=0.33.3"
image = { version = "=0.23.14", default-features = false, features = ["bmp"] }
