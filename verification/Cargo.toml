[package]
name = "balloon_hash"
version = "0.1.0"
edition = "2021"
publish = false

[dependencies]
sha2 = "0.10"
rayon = "1"
wasm-bindgen = "0.2"
