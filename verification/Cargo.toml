[package]
name = "rust_points"
version = "0.1.0"
edition = "2021"
publish = false

[dependencies]
safer-ffi = "*"
