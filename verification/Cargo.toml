[package]
name = "egui_baseview"
version = "0.1.0"
edition = "2021"
publish = false

[dependencies]
copypasta = { version = "=0.8.2", default-features = false, features = ["x11"] }
egui = "=0.20.1"
egui_glow = "0.20"
keyboard-types = "=0.6.2"
