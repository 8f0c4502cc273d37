[package]
name = "simulation_engine"
version = "0.1.0"
edition = "2021"
publish = false

[dependencies]
dashmap = "5"
rapier3d = "0.17"
nalgebra = "0.32"
serde = { version = "1", features = ["derive"] }
