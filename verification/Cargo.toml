[package]
name = "ai_engine"
version = "0.1.0"
edition = "2021"
publish = false

[dependencies]
serde = { version = "1", features = ["derive"] }
serde_json = "1"
pyo3 = "*"
actix-web = "4"
actix-cors = "*"
env_logger = "*"
dotenv = "*"
wasm-bindgen = "*"
js-sys = "*"
wasm-bindgen-futures = "*"
