[package]
name = "kamel_render"
version = "0.1.0"
edition = "2021"
publish = false

[dependencies]
ash = "=0.38.0"
ash-window = "=0.13.0"
raw-window-handle = "=0.6.2"
anyhow = "=1.0.104"
log = "=0.4.34"
