[package]
name = "orbit_camera"
version = "0.1.0"
edition = "2021"
publish = false

[dependencies]
bevy = { version = "0.16", default-features = false, features = ["bevy_asset", "bevy_color", "bevy_core_pipeline", "bevy_gizmos", "bevy_gltf", "bevy_pbr", "bevy_render", "bevy_scene", "bevy_window", "bevy_winit", "std", "x11"] }
