[package]
name = "parallel_world"
version = "0.1.0"
edition = "2021"
publish = false

[dependencies]
serde = { version = "1", features = ["derive"] }
serde_json = "1"
unicode-normalization = "0.1"
unicode-casefold = "0.2"
image = { version = "0.25", default-features = false, features = ["png", "webp"] }
