[package]
name = "plunger"
version = "0.1.0"
edition = "2021"
publish = false

[dependencies]
probe-rs = "0.13"
serde = { version = "1", features = ["derive"] }
dotenv = "0.15"
rocket = { version = "0.5", features = ["json"] }
