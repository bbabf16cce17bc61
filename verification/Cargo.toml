[package]
name = "edge_gateway"
version = "0.1.0"
edition = "2021"
publish = false

[dependencies]
anyhow = "=1.0.104"
futures-util = "=0.3.34"
getrandom = "=0.2.17"
reqwest = { version = "=0.12.28", default-features = false }
serde_json = "=1.0.154"
tokio = { version = "=1.54.1", default-features = false, features = ["io-util"] }
uuid = "=1.29.0"
wasm-bindgen-futures = "=0.4.79"
worker = "=0.8.7"

[dev-dependencies]
regex = "=1.13.1"
