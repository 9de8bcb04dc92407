[package]
name = "tangram_wasm"
version = "0.1.0"
edition = "2021"
publish = false

[dependencies]
serde = { version = "1", features = ["derive"] }
serde_bytes = "0.11"
serde-wasm-bindgen = "*"
wasm-bindgen = { version = "0.2", features = ["serde-serialize"] }
pinwheel = "*"
