[package]
name = "layer_effects"
version = "0.1.0"
edition = "2021"
publish = false

[dependencies]
smithay = { version = "*", default-features = false, features = ["wayland_frontend", "desktop"] }
wayland-protocols-plasma = { version = "*", features = ["server"] }
