[package]
name = "r_spec1"
version = "0.1.0"
edition = "2021"
publish = false

[dependencies]
anyhow = "=1.0.104"
rppal = "=0.17.1"
eframe = { version = "=0.24.1", default-features = false, features = ["glow", "x11"] }
egui = "=0.24.1"
egui_plot = "=0.24.2"
