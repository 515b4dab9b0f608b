[package]
name = "piston_graphics"
version = "0.1.0"
edition = "2021"
publish = false

[dependencies]
piston_window = "*"
piston = "*"
piston2d-opengl_graphics = "*"
