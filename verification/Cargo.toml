[package]
name = "textured_quad"
version = "0.1.0"
edition = "2021"
publish = false

[dependencies]
gl = "0.14"
image = { version = "*", default-features = false, features = ["jpeg", "png"] }
nalgebra-glm = "*"
sdl2 = "*"
