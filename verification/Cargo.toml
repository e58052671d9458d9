[package]
name = "gardenfight"
version = "0.1.0"
edition = "2021"
publish = false

[dependencies]
rand = "0.8"
bitflags = "1"
bevy = { version = "0.9", default-features = false }
bevy_rapier2d = { version = "0.19", default-features = false, features = ["dim2"] }
seldom_state = "0.3"
bevy_ecs_ldtk = { version = "0.5", default-features = false }
bevy-debug-text-overlay = "4"
