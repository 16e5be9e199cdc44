[package]
name = "astro_aski"
version = "0.1.0"
edition = "2021"
publish = false

[dependencies]
swiss-eph = "=0.2.1"
miniquad = "=0.4.11"
bevy_prototype_lyon = { version = "=0.16.0", default-features = false }

[dependencies.bevy]
version = "=0.18.1"
default-features = false
features = ["std", "async_executor", "bevy_asset", "bevy_log", "bevy_window", "2d_api", "bevy_render", "bevy_core_pipeline", "bevy_sprite_render", "default_font"]
