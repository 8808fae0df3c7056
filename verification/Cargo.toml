[package]
name = "hexagon_tiles"
version = "0.1.0"
edition = "2021"
publish = false

[dependencies]
float_eq = { version = "1", features = ["derive"] }
