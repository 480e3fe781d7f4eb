[package]
name = "solar_shaders"
version = "0.1.0"
edition = "2021"
publish = false

[dependencies]
fastnoise-lite = "*"
nalgebra-glm = "*"
