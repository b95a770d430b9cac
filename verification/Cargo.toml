[package]
name = "face_align"
version = "0.1.0"
edition = "2021"
publish = false

[dependencies]
image = { version = "=0.25.10", default-features = false }
imageproc = { version = "0.25", default-features = false }
nalgebra = "=0.35.0"
