[package]
name = "window_renderer"
version = "0.1.0"
edition = "2021"
publish = false

[dependencies]
bevy = { version = "0.8", default-features = false, features = ["bevy_winit", "x11"] }
bytemuck = "1"
futures = "0.3"
wgpu = "0.13"
