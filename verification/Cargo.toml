[package]
name = "spotorno"
version = "0.1.0"
edition = "2021"
publish = false

[dependencies]
serde_json = "1"
tiny_http = "0.12"
anyhow = "1"
