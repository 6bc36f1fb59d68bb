[package]
name = "rust_github"
version = "0.1.0"
edition = "2021"
publish = false

[dependencies]
hyper = "0.10"
base64 = "*"
serde = { version = "*", features = ["derive"] }
serde_json = "*"
