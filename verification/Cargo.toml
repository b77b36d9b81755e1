[package]
name = "x11_wrapper"
version = "0.1.0"
edition = "2021"
publish = false

[dependencies]
x11 = { version = "2", features = ["xlib"] }
lazy_static = "1"
