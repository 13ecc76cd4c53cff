[package]
name = "landon"
version = "0.1.0"
edition = "2021"
publish = false

[dependencies]
glam = "*"
bytemuck = "*"
serde = { version = "*", features = ["derive"] }
bincode = "1"
clap = "*"
