[package]
name = "tank_hud"
version = "0.1.0"
edition = "2021"
publish = false

[dependencies]
bevy = { version = "0.5.0", default-features = false, features = ["render", "bevy_audio", "mp3"] }
