[package]
name = "pick_color"
version = "0.1.0"
edition = "2021"
publish = false

[dependencies]
anyhow = "*"
async-channel = "*"
calloop = "*"
zbus = "*"
