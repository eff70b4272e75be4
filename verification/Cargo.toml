[package]
name = "sefenbu"
version = "0.1.0"
edition = "2021"
publish = false

[dependencies]
bevy = { version = "0.15", default-features = false, features = ["bevy_asset", "bevy_color", "bevy_core_pipeline", "bevy_pbr", "bevy_render", "bevy_sprite", "bevy_text", "bevy_window", "png"] }
clap = { version = "4", default-features = false, features = ["std", "derive", "help", "usage", "error-context"] }
palette = { version = "0.7", default-features = false, features = ["std"] }
