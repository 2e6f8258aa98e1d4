[package]
name = "focus_tracker"
version = "0.1.0"
edition = "2021"
publish = false

[dependencies]
wayland-client = "0.31"
wayland-protocols-wlr = { version = "*", features = ["client"] }
