[package]
name = "pomodoro"
version = "0.1.0"
edition = "2021"
publish = false

[dependencies]
eframe = { version = "=0.36.2", default-features = false, features = ["default_fonts", "glow", "x11"] }
notify-rust = "=4.18.2"
