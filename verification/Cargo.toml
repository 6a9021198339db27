[package]
name = "lifers_raylib"
version = "0.1.0"
edition = "2021"
publish = false

[dependencies]
lifers = "=0.3.0"
raylib = { version = "=3.7.0", features = ["nobuild"] }
