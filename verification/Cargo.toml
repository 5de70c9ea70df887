[package]
name = "screw"
version = "0.1.0"
edition = "2021"
publish = false

[dependencies]
async-trait = "0.1"
futures = "0.3"
futures-util = "0.3"
hyper = { version = "0.14", features = ["http1", "server"] }
serde = { version = "1", features = ["derive"] }
serde_json = "1"
tokio = { version = "1", features = ["rt"] }
tokio-tungstenite = "0.17"
