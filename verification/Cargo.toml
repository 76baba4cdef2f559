[package]
name = "scripted_mesh"
version = "0.1.0"
edition = "2021"
publish = false

[dependencies]
glam = "=0.34.1"
rhai = { version = "=1.26.1", features = ["f32_float"] }
