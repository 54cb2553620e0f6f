[package]
name = "gifteroids"
version = "0.1.0"
edition = "2021"
publish = false

[dependencies]
bevy = { version = "0.9", default-features = false, features = ["bevy_asset", "bevy_core_pipeline", "bevy_render", "bevy_sprite", "bevy_text", "bevy_ui", "bevy_winit", "png", "x11"] }
ehttp = "0.2"
parking_lot = "0.12"
rand = "=0.8.8"
tinyjson = "2"
