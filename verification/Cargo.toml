[package]
name = "colorcmd"
version = "0.1.0"
edition = "2021"
publish = false

[dependencies]
network-interface = "*"
serde = { version = "*", features = ["derive"] }
serde_json = "*"
