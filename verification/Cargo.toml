[package]
name = "boom_cubes"
version = "0.1.0"
edition = "2021"
publish = false

[dependencies]
rand = "*"
lru = "*"
rustc-hash = "*"
anyhow = "*"
log = "*"
crossbeam-channel = "*"
strum = { version = "*", features = ["derive"] }
strum_macros = "*"
