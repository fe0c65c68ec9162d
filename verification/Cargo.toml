[package]
name = "hostctl"
version = "0.1.0"
edition = "2021"
publish = false

[dependencies]
humantime = "*"
tide = "*"
async-std = { version = "*", features = ["attributes"] }
sys-info = "*"
libmedium = "*"
serde = { version = "*", features = ["derive"] }
serde_json = "*"
