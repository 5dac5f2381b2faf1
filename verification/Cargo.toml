[package]
name = "overworld"
version = "0.1.0"
edition = "2021"
publish = false

[dependencies]
bevy = { version = "=0.7.0", default-features = false, features = ["bevy_winit", "render", "x11"] }
bevy-inspector-egui = "=0.11.0"
num_enum = { version = "=0.5.11", features = ["complex-expressions"] }
