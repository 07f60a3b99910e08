[package]
name = "minecraft_skins"
version = "0.1.0"
edition = "2021"
publish = false

[dependencies]
image = { version = "=0.25.10", default-features = false, features = ["png"] }
parking_lot = "=0.12.5"
