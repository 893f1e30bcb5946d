[package]
name = "image_processor"
version = "0.1.0"
edition = "2021"
publish = false

[dependencies]
image = "=0.25.10"
bytemuck = "*"
eframe = { version = "=0.36.2", default-features = false, features = ["glow", "x11", "default_fonts"] }
egui = "=0.36.2"
rfd = "=0.17.2"
