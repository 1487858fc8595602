[package]
name = "svg2img"
version = "0.1.0"
edition = "2021"
publish = false

[dependencies]
resvg = "*"
image = "*"
uuid = { version = "*", features = ["v4"] }
