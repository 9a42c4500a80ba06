[package]
name = "orangutan_rl"
version = "0.1.0"
edition = "2021"
publish = false

[dependencies]
rand = "0.10"
ringbuffer = "0.16"
itertools = "*"
nalgebra = "*"
plotters = { version = "*", default-features = false, features = ["bitmap_backend", "bitmap_encoder", "line_series"] }
wasm-bindgen = "*"
