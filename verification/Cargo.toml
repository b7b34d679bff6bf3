[package]
name = "grid_sim"
version = "0.1.0"
edition = "2021"
publish = false

[dependencies]
ndarray = "0.15"
glium = "0.32"
image = { version = "0.24", default-features = false, features = ["png"] }
