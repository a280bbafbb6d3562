[package]
name = "raytracer"
version = "0.1.0"
edition = "2021"
publish = false

[dependencies]
num-traits = "=0.2.19"
pixels = "0.2.0"
winit = "0.24.0"
winit_input_helper = "0.9.0"
