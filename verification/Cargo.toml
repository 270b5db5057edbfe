[package]
name = "vectorize"
version = "0.1.0"
edition = "2021"
publish = false

[dependencies]
js-sys = "*"
serde = { version = "*", features = ["derive"] }
serde-wasm-bindgen = "*"
serde_json = "*"
wasm-bindgen = "*"
wasm-bindgen-futures = "*"
