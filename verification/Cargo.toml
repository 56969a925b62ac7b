[package]
name = "platform"
version = "0.1.0"
edition = "2021"
publish = false

[dependencies]
dirs = "5.0"
serde = { version = "1", features = ["derive"] }
