[package]
name = "niri_macos"
version = "0.1.0"
edition = "2021"
publish = false

[dependencies]
libc = "=0.2.191"
calloop = { version = "=0.14.5", features = ["signals"] }
smithay = { version = "=0.7.0", default-features = false }
