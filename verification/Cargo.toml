[package]
name = "frame_loop"
version = "0.1.0"
edition = "2021"
publish = false

[dependencies]
luminance = "=0.32.0"
luminance-glfw = { version = "=0.6.1", default-features = false }
