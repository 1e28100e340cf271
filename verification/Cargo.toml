[package]
name = "siligpu"
version = "0.1.0"
edition = "2021"
publish = false

[dependencies]
anyhow = "1"
clap = { version = "4", features = ["derive"] }
core-foundation = "0.9"
core-foundation-sys = "0.8"
serde = { version = "1", features = ["derive"] }
serde_json = "1"
