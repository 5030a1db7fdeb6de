[package]
name = "procedural_scene"
version = "0.1.0"
edition = "2021"
publish = false

[dependencies]
bevy = { version = "=0.17.3", default-features = false, features = ["std", "async_executor", "multi_threaded", "bevy_asset", "bevy_camera", "bevy_color", "bevy_core_pipeline", "bevy_gizmos", "bevy_image", "bevy_light", "bevy_mesh", "bevy_pbr", "bevy_render", "bevy_scene", "bevy_shader", "bevy_window", "bevy_winit", "tonemapping_luts", "webgl2", "x11", "zstd_rust"] }
rand = "=0.9.5"
rand_chacha = "=0.9.0"
