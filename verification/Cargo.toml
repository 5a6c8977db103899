[package]
name = "text_atlas"
version = "0.1.0"
edition = "2021"
publish = false

[dependencies]
etagere = "0.2"
lru = "0.12"
rustc-hash = "2"
wgpu = { version = "24", default-features = false }
