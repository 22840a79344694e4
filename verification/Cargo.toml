[package]
name = "souk"
version = "0.1.0"
edition = "2021"
publish = false

[dependencies]
regex = "1"
async-process = "1"
futures-util = { version = "0.3", features = ["io"] }
serde = { version = "1", features = ["derive"] }
zbus = "3"
async-std = "1"
bus = "2"
