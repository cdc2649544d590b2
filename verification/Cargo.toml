[package]
name = "realms"
version = "0.1.0"
edition = "2021"
publish = false

[dependencies]
gl = "=0.14.0"
glfw = "=0.63.0"
image = "=0.25.10"
ril = { version = "=0.10.3", features = ["png"] }
