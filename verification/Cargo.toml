[package]
name = "ball_lift"
version = "0.1.0"
edition = "2021"
publish = false

[dependencies]
bevy = { version = "0.15", default-features = false, features = ["bevy_window", "bevy_winit", "x11"] }
bevy_rapier2d = { version = "0.28", default-features = false, features = ["dim2"] }
