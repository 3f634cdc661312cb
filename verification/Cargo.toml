[package]
name = "kornia"
version = "0.1.0"
edition = "2021"
publish = false

[dependencies]
circular-buffer = "=1.2.1"
gstreamer = "=0.23.7"
gstreamer-app = "=0.23.5"
