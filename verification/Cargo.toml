[package]
name = "kdash"
version = "0.1.0"
edition = "2021"
publish = false

[dependencies]
k8s-openapi = { version = "*", features = ["latest"] }
ratatui = { version = "*", default-features = false }
