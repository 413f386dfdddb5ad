[package]
name = "iris_core"
version = "0.1.0"
edition = "2021"
publish = false

[dependencies]
hatmil = "=0.9.0"
humantime = "=2.4.0"
mag = "=0.6.0"
serde = { version = "=1.0.229", features = ["derive"] }
serde_json = "=1.0.154"
serde-wasm-bindgen = "=0.6.5"
tokio-postgres = "=0.7.18"
wasm-bindgen = "=0.2.129"
