[package]
name = "qr_forge"
version = "0.1.0"
edition = "2021"
publish = false

[dependencies]
qrcode = "*"
image = "*"
svg = "*"
clap = { version = "*", features = ["derive"] }
