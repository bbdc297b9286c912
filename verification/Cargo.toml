[package]
name = "flycam"
version = "0.1.0"
edition = "2021"
publish = false

[dependencies]
cgmath = "0.18"
gfx = "0.18"
gfx_window_glutin = "0.31"
glutin = "0.21"
image = "0.23"
