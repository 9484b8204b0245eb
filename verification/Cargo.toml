[package]
name = "xiee"
version = "0.1.0"
edition = "2021"
publish = false

[dependencies]
anyhow = "=1.0.104"
chrono = "=0.4.45"
egui = "=0.31.1"
eframe = { version = "=0.31.1", default-features = false, features = ["default_fonts", "glow", "x11"] }
env_logger = "=0.11.11"
log = "=0.4.35"
