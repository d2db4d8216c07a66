[package]
name = "async-openai-wasm"
version = "0.1.0"
edition = "2021"
publish = false

[dependencies]
serde = { version = "1", features = ["derive"] }
serde_json = "1"
reqwest = { version = "0.12", default-features = false, features = ["json", "multipart", "stream"] }
reqwest-eventsource = "0.6"
eventsource-stream = "0.2"
futures = "0.3"
pin-project = "1"
bytes = "1"
async-convert = "1"
derive_builder = "0.20"
tracing = "0.1"
