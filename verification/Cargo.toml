[package]
name = "conveyor"
version = "0.1.0"
edition = "2021"
publish = false

[dependencies]
cgmath = "0.18"
gl = "0.14"
glutin = { version = "0.29", default-features = false, features = ["x11"] }
image = "0.24"
