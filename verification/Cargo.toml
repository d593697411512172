[package]
name = "automod"
version = "0.1.0"
edition = "2021"
publish = false

[dependencies]
serde = { version = "1", features = ["derive"] }
sonic-rs = "*"
twilight-http = { version = "0.16", default-features = false }
twilight-model = "0.16"
