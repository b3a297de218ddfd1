[package]
name = "fourdeers"
version = "0.1.0"
edition = "2021"
publish = false

[dependencies]
egui = "*"
nalgebra = "*"
bytemuck = { version = "1", features = ["derive"] }
