[package]
name = "calculator_engine"
version = "0.1.0"
edition = "2021"
publish = false

[dependencies]
yew = { version = "0.21", features = ["csr"] }
wasm-bindgen = "0.2"
wasm-bindgen-futures = "0.4"
web-sys = { version = "0.3", features = ["HtmlInputElement"] }
serde = { version = "1", features = ["derive"] }
serde-wasm-bindgen = "0.6"
