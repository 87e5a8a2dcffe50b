[package]
name = "dreamdeck"
version = "0.1.0"
edition = "2021"
publish = false

[dependencies]
anyhow = "*"
midir = "*"
libpulse-binding = "*"
pulsectl-rs = "*"
