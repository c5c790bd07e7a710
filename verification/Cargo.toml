[package]
name = "glinfo"
version = "0.1.0"
edition = "2021"
publish = false

[dependencies]
winit = "*"
glutin = "*"
glutin-winit = "*"
