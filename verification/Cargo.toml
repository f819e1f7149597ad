[package]
name = "soundscape"
version = "0.1.0"
edition = "2021"
publish = false

[dependencies]
chrono = "0.4"
bspline = "*"
cgmath = "*"
rodio = "0.9"
rosc = "*"
serde = { version = "1", features = ["derive"] }
serde_derive = "1"
serde_yaml = "*"
timer = "*"
