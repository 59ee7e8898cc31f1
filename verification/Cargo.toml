[package]
name = "bevy_rapier2d_f64"
version = "0.1.0"
edition = "2021"
publish = false

[dependencies]
bevy = { version = "0.17", default-features = false }
rapier2d-f64 = "*"
