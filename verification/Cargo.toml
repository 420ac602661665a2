[package]
name = "siz"
version = "0.1.0"
edition = "2021"
publish = false

[dependencies]
ignore = "*"
rayon = "*"
colored = "*"
humansize = "*"
clap = { version = "*", features = ["derive"] }
