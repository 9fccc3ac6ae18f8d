[package]
name = "to_phantom"
version = "0.1.0"
edition = "2021"
publish = false

[dependencies]
syn = "*"

[dev-dependencies]
quote = "*"
