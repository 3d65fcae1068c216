[package]
name = "scarlet_core"
version = "0.1.0"
edition = "2021"
publish = false

[dependencies]
bevy = { version = "0.17", default-features = false, features = ["std", "multi_threaded", "bevy_asset", "bevy_state", "bevy_render", "bevy_core_pipeline", "bevy_sprite", "bevy_sprite_render", "bevy_gizmos", "bevy_winit", "bevy_window", "bevy_log", "x11", "png"] }
ron = "0.10"
serde = { version = "1", features = ["derive"] }
