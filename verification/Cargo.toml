[package]
name = "rustbyve"
version = "0.1.0"
edition = "2021"
publish = false

[dependencies]
bevy = { version = "=0.16.1", default-features = false, features = ["std", "bevy_winit", "bevy_window", "bevy_render", "bevy_core_pipeline", "bevy_sprite", "bevy_gizmos", "bevy_text", "default_font", "bevy_color", "bevy_asset", "x11"] }
wasm-bindgen = "0.2"
