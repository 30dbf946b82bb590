[package]
name = "point_nd"
version = "0.5.0"
edition = "2021"
publish = false

[dependencies]
arrayvec = { version = "0.7", default-features = false }
