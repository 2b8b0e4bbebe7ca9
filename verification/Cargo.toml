[package]
name = "glconvert"
version = "0.1.0"
edition = "2021"
publish = false

[dependencies]
khronos-egl = { version = "*", features = ["static"] }
gles31-sys = "*"
