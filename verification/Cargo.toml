[package]
name = "produ_render"
version = "0.1.0"
edition = "2021"
publish = false

[dependencies]
vulkano = "0.24"
vulkano-shaders = "0.24"
vulkano-win = "0.24"
winit = "0.25"
