[package]
name = "xcm_helper"
version = "0.1.0"
edition = "2021"
publish = false

[dependencies]
parity-scale-codec = { version = "3", features = ["derive"] }
scale-info = { version = "2", features = ["derive"] }
staging-xcm = "*"
sp-runtime = "*"
sp-std = "*"
frame-support = "*"
frame-system = "*"
