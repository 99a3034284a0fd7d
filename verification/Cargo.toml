[package]
name = "screen_color_picker"
version = "0.1.0"
edition = "2021"
publish = false

[dependencies]
image = { version = "=0.24.9", default-features = false }
wasm-bindgen = "0.2"
console_error_panic_hook = "0.1"
