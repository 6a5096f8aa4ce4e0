[package]
name = "glu"
version = "0.1.0"
edition = "2021"
publish = false

[dependencies]
glium = "0.32"
noisy_float = "0.2"
