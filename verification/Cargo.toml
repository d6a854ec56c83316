[package]
name = "firec"
version = "0.1.0"
edition = "2021"
publish = false

[dependencies]
users = "*"
uuid = { version = "*", features = ["v4"] }
serde = { version = "*", features = ["derive"] }
serde_json = "*"
thiserror = "*"
