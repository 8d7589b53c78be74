[package]
name = "rgm"
version = "0.1.0"
edition = "2021"
publish = false

[dependencies]
crossbeam-channel = "=0.5.17"
nvml-wrapper = "=0.13.0"
thiserror = "=2.0.21"
eframe = { version = "=0.36.2", default-features = false, features = ["default_fonts", "glow", "x11"] }
egui_plot = "=0.37.0"
