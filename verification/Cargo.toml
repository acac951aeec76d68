[package]
name = "twisty_cube"
version = "0.1.0"
edition = "2021"
publish = false

[dependencies]
bevy = { version = "0.14", default-features = false }
bevy_tween = { version = "0.6", default-features = false }
