[package]
name = "llml_simd"
version = "0.1.0"
edition = "2021"
publish = false

[dependencies]
rustc_apfloat = "*"
serde = { version = "1", features = ["derive"] }
rand = "0.8"
