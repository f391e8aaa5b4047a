[package]
name = "nsq_client"
version = "0.1.0"
edition = "2021"
publish = false

[dependencies]
hostname = "=0.3.1"
serde = { version = "=1.0.229", features = ["derive"] }
serde_json = "=1.0.151"
async-std = "=1.13.2"
futures = "=0.3.34"
async-tls = "=0.13.0"
rustls = "=0.21.12"
rustls-pemfile = "=1.0.4"
