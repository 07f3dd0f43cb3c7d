[package]
name = "direct_inference"
version = "0.1.0"
edition = "2021"
publish = false

[dependencies]
serde_json = "1"
uuid = { version = "1", features = ["v4"] }
http = "1"
url = "2"
serde = { version = "1", features = ["derive"] }
anyhow = "1"
log = "0.4"
futures = "0.3"
async-stream = "0.3"
