[package]
name = "quadblur"
version = "0.1.0"
edition = "2021"
publish = false

[dependencies]
rand = "0.8"
gl = "0.14"
glam = "0.29"
glutin = "0.32"
glutin-winit = "0.5"
image = "0.25"
winit = "0.30"
