[package]
name = "war_v2"
version = "0.4.0"
edition = "2021"
publish = false

[dependencies]
rand = "=0.8.5"
wasm-bindgen = "=0.2.130"
js-sys = "=0.3.107"
console_error_panic_hook = "=0.1.7"
