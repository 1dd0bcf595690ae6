[package]
name = "shade"
version = "0.1.0"
edition = "2021"
publish = false

[dependencies]
clap = { version = "4", features = ["derive"] }
iced = { version = "0.13", default-features = false, features = ["tiny-skia"] }
