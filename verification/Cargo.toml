[package]
name = "style_core"
version = "0.1.0"
edition = "2021"
publish = false

[dependencies]
image = { version = "*", default-features = false, features = ["png", "jpeg"] }
wasm-bindgen = "*"
js-sys = "*"
console_error_panic_hook = "*"
wonnx = "*"
