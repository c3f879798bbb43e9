[package]
name = "creek"
version = "0.1.0"
edition = "2021"
publish = false

[dependencies]
ash = "=0.38.0"
ash-window = "=0.13.0"
image = { version = "=0.25.10", default-features = false, features = ["png", "jpeg", "gif", "bmp"] }
mlua = { version = "=0.10.5", features = ["luajit", "vendored", "send"] }
rodio = "=0.21.1"
winit = "=0.30.13"
