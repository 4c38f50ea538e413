[package]
name = "gpu_settings"
version = "0.1.0"
edition = "2021"
publish = false

[dependencies]
sysfuss = "*"
log = "*"
