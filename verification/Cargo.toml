[package]
name = "crabboy_core"
version = "0.1.0"
edition = "2021"
publish = false

[dependencies]
serde = { version = "1", features = ["derive"] }
toml = "0.8"
ringbuf = "0.4"
minifb = "0.27"
wasm-bindgen = "0.2"
console_error_panic_hook = "0.1"
