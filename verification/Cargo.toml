[package]
name = "citro_3d"
version = "0.1.0"
edition = "2021"
publish = false

[dependencies]
cgmath = "0.18"
lazy_static = "1"
libc = "0.2"
