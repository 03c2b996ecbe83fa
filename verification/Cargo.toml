[package]
name = "rustic_tetris"
version = "0.1.0"
edition = "2021"
publish = false

[dependencies]
bevy = { version = "=0.5.0", default-features = false }
bevy_render = "=0.5.0"
bevy_sprite = "=0.5.0"
bevy_text = "=0.5.0"
bevy_ui = "=0.5.0"
bevy_wgpu = "=0.5.0"
bevy_winit = { version = "=0.5.0", features = ["x11"] }
darling = "=0.10.2"
