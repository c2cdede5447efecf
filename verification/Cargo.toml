[package]
name = "autonomous_game"
version = "0.1.0"
edition = "2021"
publish = false

[dependencies]
macroquad = { version = "*", default-features = false }
macroquad-tiled = "*"
wasm-bindgen = "*"
lazy_static = "*"
