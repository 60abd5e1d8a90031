[package]
name = "meccable"
version = "0.1.0"
edition = "2021"
publish = false

[dependencies]
anyhow = "1"
btleplug = "0.11"
clap = { version = "4", features = ["derive"] }
strum = { version = "0.27", features = ["derive"] }
tokio = { version = "1", features = ["full"] }
uuid = "1"
wiimote-rs = "0.2"
