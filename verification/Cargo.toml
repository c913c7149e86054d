[package]
name = "ebe"
version = "0.1.0"
edition = "2021"
publish = false

[dependencies]
rand = "0.8"
bevy = { version = "0.7", default-features = false, features = ["bevy_winit", "render", "png", "x11"] }
bevy_kira_audio = { version = "0.9", default-features = false, features = ["wav"] }
