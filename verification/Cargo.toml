[package]
name = "embedder"
version = "0.1.0"
edition = "2021"
publish = false

[dependencies]
env_logger = "*"
euclid = "0.22"
gleam = "0.15"
surfman = { version = "=0.2.0", features = ["sm-winit"] }
webrender = "=0.70.0"
winit = "=0.19.3"
