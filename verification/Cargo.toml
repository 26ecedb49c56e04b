[package]
name = "mem5"
version = "0.1.0"
edition = "2021"
publish = false

[dependencies]
serde = { version = "=1.0.229", features = ["derive"] }
serde_derive = "=1.0.229"
serde_json = "=1.0.154"
strum_macros = "=0.28.0"
unwrap = "=1.2.1"
wasm-bindgen = "=0.2.130"
wasm-bindgen-futures = "=0.4.80"
js-sys = "=0.3.107"
futures = "=0.3.34"
dodrio = "=0.2.0"
web-sys = { version = "=0.3.107", features = ["WebSocket", "ErrorEvent", "MessageEvent", "Window", "Location", "console"] }
