[package]
name = "blockmesh"
version = "0.1.0"
edition = "2021"
publish = false

[dependencies]
glam = "*"
serde = { version = "*", features = ["derive"] }
quick-xml = { version = "*", features = ["serialize"] }
