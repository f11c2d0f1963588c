[package]
name = "rust_invaders"
version = "0.1.0"
edition = "2021"
publish = false

[dependencies]
rand = "0.8"
bevy = { version = "0.5", default-features = false, features = ["render", "bevy_winit", "bevy_wgpu", "bevy_audio", "mp3", "png", "x11"] }
bevy_egui = { version = "0.7", default-features = false }
bevy-inspector-egui = { version = "0.6", default-features = false }
futures = "0.3"
