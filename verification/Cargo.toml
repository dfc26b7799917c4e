[package]
name = "audio_idle_inhibit"
version = "0.1.0"
edition = "2021"
publish = false

[dependencies]
wayland-client = "*"
wayland-protocols = { version = "*", default-features = false, features = ["client", "unstable"] }
