[package]
name = "egui_glfw_mdi"
version = "0.1.0"
edition = "2021"
publish = false

[dependencies]
egui = "=0.32.3"
gl = "=0.14.0"
glfw-sys = "=8.0.0"
