[package]
name = "resize_text"
version = "0.1.0"
edition = "2021"
publish = false

[dependencies]
bevy = { version = "0.15", default-features = false, features = ["bevy_window", "bevy_text", "bevy_core_pipeline"] }
