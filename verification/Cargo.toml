[package]
name = "pendulum_control"
version = "0.1.0"
edition = "2021"
publish = false

[dependencies]
bevy = { version = "=0.13.2", default-features = false }
bevy_xpbd_2d = { version = "=0.4.2", default-features = false, features = ["2d", "f32", "parry-f32", "parallel"] }
