[package]
name = "lightpath"
version = "0.1.0"
edition = "2021"
publish = false

[dependencies]
anyhow = "*"
embree4-rs = "*"
embree4-sys = "*"
fastrand = "*"
fxhash = "*"
glam = "*"
gltf = "*"
image = { version = "*", default-features = false, features = ["png", "jpeg", "rayon"] }
rayon = "*"
