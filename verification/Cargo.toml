[package]
name = "wormhole"
version = "0.1.0"
edition = "2021"
publish = false

[dependencies]
camino = "1"
glam = "0.25"
gltf = "1"
tobj = "4"
image = { version = "0.24", default-features = false, features = ["png", "jpeg"] }
winit = "0.29"
