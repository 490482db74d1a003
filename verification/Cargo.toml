[package]
name = "boat_light_trainer"
version = "0.1.0"
edition = "2021"
publish = false

[dependencies]
rand = "0.8"
eframe = { version = "*", default-features = false, features = ["glow", "x11"] }
egui = "*"
egui_extras = { version = "*", default-features = false }
env_logger = { version = "*", default-features = false }
