[package]
name = "pull_request_summary"
version = "0.1.0"
edition = "2021"
publish = false

[dependencies]
argopt = "*"
serde = { version = "1", features = ["derive"] }
url = "2"
