[package]
name = "golem_rig"
version = "0.1.0"
edition = "2021"
publish = false

[dependencies]
bevy = { version = "=0.16.1", default-features = false, features = ["std", "async_executor", "bevy_asset", "bevy_core_pipeline", "bevy_pbr", "bevy_render", "bevy_window", "multi_threaded", "png"] }
bevy_rapier3d = { version = "=0.30.0", default-features = false, features = ["dim3"] }
