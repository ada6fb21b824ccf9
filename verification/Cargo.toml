[package]
name = "shader_preview"
version = "0.1.0"
edition = "2021"
publish = false

[dependencies]
gl = "0.14"
glutin = "0.26"
imgui = "0.7"
imgui-winit-support = { version = "0.7", default-features = false, features = ["winit-24"] }
imgui-opengl-renderer = "0.11"
