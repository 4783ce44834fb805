[package]
name = "wasm2spirv"
version = "0.1.0"
edition = "2021"
publish = false

[dependencies]
spirv = { version = "=0.4.0", features = ["serialize", "deserialize"] }
vector_mapp = "=0.3.3"
serde = { version = "=1.0.229", features = ["derive"] }
serde_json = "=1.0.154"
