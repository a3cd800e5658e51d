[package]
name = "game"
version = "0.1.0"
edition = "2021"
publish = false

[dependencies]
bevy = { version = "=0.17.3", default-features = false, features = ["std", "async_executor", "multi_threaded", "bevy_asset", "bevy_camera", "bevy_color", "bevy_core_pipeline", "bevy_image", "bevy_log", "bevy_render", "bevy_sprite", "bevy_sprite_render", "bevy_window", "bevy_winit", "png", "x11"] }
