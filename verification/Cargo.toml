[package]
name = "rose_sim"
version = "0.1.0"
edition = "2021"
publish = false

[dependencies]
bevy_ecs = "*"
nalgebra = "*"
serde = { version = "1", features = ["derive"] }
