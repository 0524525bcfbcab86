[package]
name = "render_core"
version = "0.1.0"
edition = "2021"
publish = false

[dependencies]
cgmath = "0.17"
gl = "0.14"
gl_loader = "0.1"
glutin = "0.19"
