[package]
name = "rustgb"
version = "0.1.0"
edition = "2021"
publish = false

[dependencies]
eframe = { version = "0.29.1", default-features = false, features = ["glow", "default_fonts"] }
egui_extras = { version = "0.29.1", default-features = false }
env_logger = "0.11"
log = "0.4"
puffin = "0.19.1"
puffin_http = "0.16.1"
