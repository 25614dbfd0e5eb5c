[package]
name = "imgui"
version = "0.0.1"
edition = "2021"
publish = false

[dependencies]
libc = "0.2"
glium = { version = "*", default-features = false }
