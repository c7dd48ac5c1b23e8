[package]
name = "hi_mipi"
version = "0.1.0"
edition = "2021"
publish = false

[dependencies]
bindgen = "*"

[dev-dependencies]
regex = "*"
