[package]
name = "gl_surface"
version = "0.1.0"
edition = "2021"
publish = false

[dependencies]
glow = "*"
glutin = { version = "0.29", default-features = false, features = ["x11"] }
