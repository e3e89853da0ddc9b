[package]
name = "portfolio"
version = "0.1.0"
edition = "2021"
publish = false

[dependencies]
yew = "=0.19.3"
yew-router = "=0.16.0"
yew-feather = "=0.2.1"
weblog = "=0.3.0"
wasm-bindgen = "=0.2.129"

[dev-dependencies]
route-recognizer = "=0.3.1"
