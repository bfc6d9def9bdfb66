[package]
name = "myxine"
version = "0.1.0"
edition = "2021"
publish = false

[dependencies]
futures = "0.3"
hyper = "0.13"
hyper-usse = "*"
serde_json = "1"
tokio = { version = "0.2", features = ["stream", "sync", "time"] }
uuid = { version = "0.8", features = ["v4"] }
