[package]
name = "meshterial"
version = "0.1.0"
edition = "2021"
publish = false

[dependencies]
vulkano = "0.11"
vulkano-shaders = "0.11"
sdl2 = "0.32"
nalgebra = "0.16"
nalgebra-glm = "0.1"
image = "0.21"
collada = "0.11"
