[package]
name = "sketch_model"
version = "0.1.0"
edition = "2021"
publish = false

[dependencies]
async-std = "*"
wasm-bindgen = "*"
console_error_panic_hook = "*"
