[package]
name = "ruma_client"
version = "0.1.0"
edition = "2021"
publish = false

[dependencies]
url = "2"
serde_json = "1"
hyper = { version = "0.14", features = ["client", "http1", "tcp"] }
hyper-tls = "0.5"
native-tls = "0.2"
tokio = { version = "1", features = ["rt"] }
